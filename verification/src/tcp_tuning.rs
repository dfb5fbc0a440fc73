//! Egress TCP tuning for the sockets the core itself opens.
//!
//! What moves the needle on a lossy mobile link is per-socket tuning of the
//! connections the core carries:
//!
//!   * `TCP_NODELAY` so small writes (a request line, an ACK-sized payload) are
//!     not held back by Nagle against the previous segment's ACK.
//!   * keepalives with a short idle so an idle carrier NAT mapping is kept
//!     alive rather than silently dropped, which is a common mid-session stall.
//!   * `TCP_USER_TIMEOUT` so a black-holed path fails the connection instead of
//!     hanging it for the kernel default of ~15 minutes.
//!   * widened `SO_SNDBUF`/`SO_RCVBUF` so a high bandwidth-delay path is not
//!     throttled by the ~64 KiB default window.
//!
//! Every option is best-effort: a kernel that rejects one never fails the
//! connection over it. `AETHER_TCP_TUNING=off` disables the whole module.

use vstd::prelude::*;

use crate::sysprofile::{
    host_tuning, law_settings_stay_in_bounds, tcp_egress_recv_buf_bytes,
    tcp_egress_send_buf_bytes, tcp_tuning_enabled, Host, Tuning,
};

verus! {

/// `std::io::Error`, of which only that it was given is ever looked at.
#[verifier::external_type_specification]
#[verifier::external_body]
pub struct ExIoError(std::io::Error);

/// The socket options of Linux and Android that the tuning sets.
#[derive(Debug, Clone, Copy, PartialEq, Eq, Structural)]
pub enum KernelOption {
    /// `SO_KEEPALIVE`
    KeepAlive,
    /// `TCP_KEEPIDLE`, in seconds
    KeepIdle,
    /// `TCP_KEEPINTVL`, in seconds
    KeepInterval,
    /// `TCP_KEEPCNT`
    KeepCount,
    /// `TCP_USER_TIMEOUT`, in milliseconds
    UserTimeout,
    /// `SO_RCVBUF`, in bytes
    RecvBuf,
    /// `SO_SNDBUF`, in bytes
    SendBuf,
}

/// One thing to ask of a socket.
#[derive(Debug, Clone, Copy, PartialEq, Eq, Structural)]
pub enum Request {
    /// Send small writes at once (`TCP_NODELAY`).
    DisableNagle,
    /// Set an option to a value.
    SetInt { option: KernelOption, value: i32 },
}

/// Whether the socket options of [KernelOption] are there to be set.
#[derive(Debug, Clone, Copy, PartialEq, Eq, Structural)]
pub enum Platform {
    /// Linux or Android
    Linux,
    Other,
}

/// A socket the tuning can be applied to: both the blocking and the async
/// `TcpStream`, which are the only two the core ever egresses on.
pub trait EgressStream {
    /// Whether `request` may be put to the stream at all. Code that works on any
    /// stream learns of this only what it is told, so it can put nothing else.
    open spec fn may_be_asked(&self, request: Request) -> bool {
        true
    }

    fn disable_nagle(&self) -> std::io::Result<()>
        requires
            self.may_be_asked(Request::DisableNagle),
    ;

    /// Sets one option and says whether the kernel accepted it.
    fn set_int(&self, option: KernelOption, value: i32) -> bool
        requires
            self.may_be_asked(Request::SetInt { option, value }),
    ;
}

/// The request for a buffer, where the kernel has room for its size.
pub open spec fn buffer_request(option: KernelOption, bytes: usize) -> Seq<Request> {
    if bytes <= i32::MAX {
        seq![Request::SetInt { option, value: bytes as i32 }]
    } else {
        seq![]
    }
}

/// What only Linux and Android offer to be set, in the order in which it is asked.
pub open spec fn kernel_requests(tuning: Tuning) -> Seq<Request> {
    seq![
        Request::SetInt { option: KernelOption::KeepAlive, value: 1 },
        Request::SetInt { option: KernelOption::KeepIdle, value: 30 },
        Request::SetInt { option: KernelOption::KeepInterval, value: 10 },
        Request::SetInt { option: KernelOption::KeepCount, value: 3 },
        Request::SetInt { option: KernelOption::UserTimeout, value: 30_000 },
    ] + buffer_request(KernelOption::RecvBuf, tuning.tcp_egress_recv_buf) + buffer_request(
        KernelOption::SendBuf,
        tuning.tcp_egress_send_buf,
    )
}

/// All that is asked of a socket, in order: nothing, where the tuning is off.
pub open spec fn requests(platform: Platform, tuning: Tuning) -> Seq<Request> {
    if !tuning.tcp_tuning {
        seq![]
    } else if platform == Platform::Linux {
        seq![Request::DisableNagle] + kernel_requests(tuning)
    } else {
        seq![Request::DisableNagle]
    }
}

/// Lists all that is to be asked of a socket, in order.
pub fn plan(platform: Platform, tuning: &Tuning) -> (planned: Vec<Request>)
    ensures
        planned@ == requests(platform, *tuning),
{
    let mut planned: Vec<Request> = Vec::new();
    if !tcp_tuning_enabled(tuning) {
        return planned;
    }
    planned.push(Request::DisableNagle);
    if platform == Platform::Linux {
        planned.push(Request::SetInt { option: KernelOption::KeepAlive, value: 1 });
        planned.push(Request::SetInt { option: KernelOption::KeepIdle, value: 30 });
        planned.push(Request::SetInt { option: KernelOption::KeepInterval, value: 10 });
        planned.push(Request::SetInt { option: KernelOption::KeepCount, value: 3 });
        planned.push(Request::SetInt { option: KernelOption::UserTimeout, value: 30_000 });

        let recv = tcp_egress_recv_buf_bytes(tuning);
        let send = tcp_egress_send_buf_bytes(tuning);
        if recv <= i32::MAX as usize {
            planned.push(Request::SetInt { option: KernelOption::RecvBuf, value: recv as i32 });
        }
        if send <= i32::MAX as usize {
            planned.push(Request::SetInt { option: KernelOption::SendBuf, value: send as i32 });
        }
    }
    planned
}

/// How many of `outcomes` are favourable.
pub open spec fn accepted(outcomes: Seq<bool>) -> nat
    decreases outcomes.len(),
{
    if outcomes.len() == 0 {
        0
    } else {
        accepted(outcomes.drop_last()) + if outcomes.last() {
            1nat
        } else {
            0
        }
    }
}

/// Whether `outcome` is an answer of `stream` to `request`.
pub open spec fn answered<S: EgressStream>(stream: &S, request: Request, outcome: bool) -> bool {
    match request {
        Request::DisableNagle => exists|reply: std::io::Result<()>| #[trigger]
            call_ensures(S::disable_nagle, (stream,), reply) && outcome == reply is Ok,
        Request::SetInt { option, value } => call_ensures(
            S::set_int,
            (stream, option, value),
            outcome,
        ),
    }
}

/// Whether `outcomes` are answers of `stream` to `asked`, one each, in order.
pub open spec fn all_answered<S: EgressStream>(
    stream: &S,
    asked: Seq<Request>,
    outcomes: Seq<bool>,
) -> bool {
    &&& outcomes.len() == asked.len()
    &&& forall|i: int|
        0 <= i < asked.len() ==> answered(stream, #[trigger] asked[i], outcomes[i])
}

/// Puts one request to `stream` and says whether it was accepted.
fn ask<S: EgressStream>(stream: &S, request: Request) -> (outcome: bool)
    requires
        stream.may_be_asked(request),
    ensures
        answered(stream, request, outcome),
{
    match request {
        Request::DisableNagle => stream.disable_nagle().is_ok(),
        Request::SetInt { option, value } => stream.set_int(option, value),
    }
}

/// Applies the tuned options to `stream` and returns how many the kernel
/// accepted. Callers treat the count as diagnostic only.
///
/// Each of `requests` is put to the stream and nothing else is: nothing at all
/// where the tuning is off.
pub fn apply<S: EgressStream>(stream: &S, platform: Platform, tuning: &Tuning) -> (applied: usize)
    requires
        forall|i: int|
            0 <= i < requests(platform, *tuning).len() ==> stream.may_be_asked(
                #[trigger] requests(platform, *tuning)[i],
            ),
    ensures
        exists|outcomes: Seq<bool>| #[trigger]
            all_answered(stream, requests(platform, *tuning), outcomes) && applied == accepted(
                outcomes,
            ),
        !tuning.tcp_tuning ==> applied == 0,
{
    let planned = plan(platform, tuning);
    let mut outcomes: Vec<bool> = Vec::new();
    let mut i: usize = 0;
    while i < planned.len()
        invariant
            i <= planned@.len(),
            forall|k: int|
                0 <= k < planned@.len() ==> stream.may_be_asked(#[trigger] planned@[k]),
            all_answered(stream, planned@.take(i as int), outcomes@),
        decreases planned@.len() - i,
    {
        let outcome = ask(stream, planned[i]);
        outcomes.push(outcome);
        i = i + 1;
    }
    assert(planned@.take(i as int) == planned@);
    tally(&outcomes)
}

/// Counts the favourable outcomes.
pub fn tally(outcomes: &Vec<bool>) -> (count: usize)
    ensures
        count == accepted(outcomes@),
        count <= outcomes@.len(),
{
    let mut count: usize = 0;
    let mut i: usize = 0;
    while i < outcomes.len()
        invariant
            i <= outcomes@.len(),
            count <= i,
            count == accepted(outcomes@.take(i as int)),
        decreases outcomes@.len() - i,
    {
        assert(outcomes@.take(i + 1).drop_last() == outcomes@.take(i as int));
        if outcomes[i] {
            count = count + 1;
        }
        i = i + 1;
    }
    assert(outcomes@.take(i as int) == outcomes@);
    count
}

/// Where the tuning is off, nothing is asked of a socket, so it may be applied
/// to a stream of which nothing may be asked.
pub proof fn law_off_asks_nothing<S: EgressStream>(stream: &S, platform: Platform, tuning: Tuning)
    requires
        !tuning.tcp_tuning,
    ensures
        requests(platform, tuning).len() == 0,
        call_requires(apply::<S>, (stream, platform, &tuning)),
{
}

/// No more options are accepted than were asked for, and a stream that accepts
/// everything is counted in full.
pub proof fn law_accepted_counts_the_favourable(outcomes: Seq<bool>)
    ensures
        accepted(outcomes) <= outcomes.len(),
        accepted(outcomes) == outcomes.len() <==> forall|i: int|
            0 <= i < outcomes.len() ==> #[trigger] outcomes[i],
    decreases outcomes.len(),
{
    if outcomes.len() > 0 {
        let shorter = outcomes.drop_last();
        law_accepted_counts_the_favourable(shorter);
        if accepted(outcomes) == outcomes.len() {
            assert forall|i: int| 0 <= i < outcomes.len() implies #[trigger] outcomes[i] by {
                if i < shorter.len() {
                    assert(shorter[i]);
                }
            }
        }
    }
}

/// An option that the kernel rejects costs itself and nothing else.
pub proof fn law_rejection_costs_only_itself(outcomes: Seq<bool>, rejected: int)
    requires
        0 <= rejected < outcomes.len(),
        outcomes[rejected],
    ensures
        accepted(outcomes.update(rejected, false)) == accepted(outcomes) - 1,
    decreases outcomes.len(),
{
    let changed = outcomes.update(rejected, false);
    if rejected == outcomes.len() - 1 {
        assert(changed.drop_last() == outcomes.drop_last());
    } else {
        assert(changed.drop_last() == outcomes.drop_last().update(rejected, false));
        law_rejection_costs_only_itself(outcomes.drop_last(), rejected);
    }
}

/// On Linux every host whose tuning is on is asked for both buffers, at the
/// sizes that its settings hold, and for eight things in all.
pub proof fn law_every_host_widens_both_buffers(host: Host)
    requires
        host_tuning(host).tcp_tuning,
    ensures
        ({
            let tuning = host_tuning(host);
            let asked = requests(Platform::Linux, tuning);
            &&& asked.len() == 8
            &&& asked[6] matches Request::SetInt { option, value }
            &&& option == KernelOption::RecvBuf
            &&& value == tuning.tcp_egress_recv_buf
            &&& asked[7] matches Request::SetInt { option, value }
            &&& option == KernelOption::SendBuf
            &&& value == tuning.tcp_egress_send_buf
        }),
{
    law_settings_stay_in_bounds(host);
}

/// On Linux a tuning that is on asks the same six things first, whatever else it
/// holds.
pub proof fn law_every_tuning_asks_the_same_six_things_first(tuning: Tuning)
    requires
        tuning.tcp_tuning,
    ensures
        requests(Platform::Linux, tuning).len() >= 6,
        requests(Platform::Linux, tuning).take(6) == seq![
            Request::DisableNagle,
            Request::SetInt { option: KernelOption::KeepAlive, value: 1 },
            Request::SetInt { option: KernelOption::KeepIdle, value: 30 },
            Request::SetInt { option: KernelOption::KeepInterval, value: 10 },
            Request::SetInt { option: KernelOption::KeepCount, value: 3 },
            Request::SetInt { option: KernelOption::UserTimeout, value: 30_000 },
        ],
{
}

/// On Linux a tuning that is on asks, after the first six things, for its receive
/// buffer and then for its send buffer, each at its own size and only where that
/// size is one the kernel can be told, and for nothing more.
pub proof fn law_buffers_are_asked_for_at_their_sizes(tuning: Tuning)
    requires
        tuning.tcp_tuning,
    ensures
        ({
            let asked = requests(Platform::Linux, tuning).skip(6);
            let recv = tuning.tcp_egress_recv_buf;
            let send = tuning.tcp_egress_send_buf;
            &&& asked.len() == (if recv <= 0x7fff_ffff {
                1int
            } else {
                0
            }) + (if send <= 0x7fff_ffff {
                1int
            } else {
                0
            })
            &&& recv <= 0x7fff_ffff ==> (asked.first() matches Request::SetInt { option, value }
                && option == KernelOption::RecvBuf && value as int == recv as int)
            &&& send <= 0x7fff_ffff ==> (asked.last() matches Request::SetInt { option, value }
                && option == KernelOption::SendBuf && value as int == send as int)
        }),
{
}

/// Elsewhere a tuning that is on asks for the end of Nagle and for nothing more.
pub proof fn law_other_platforms_are_asked_one_thing(tuning: Tuning)
    requires
        tuning.tcp_tuning,
    ensures
        requests(Platform::Other, tuning) == seq![Request::DisableNagle],
{
}

/// Two tunings that agree on the switch and on the two egress buffers ask the same.
pub proof fn law_only_switch_and_buffers_matter(platform: Platform, a: Tuning, b: Tuning)
    requires
        a.tcp_tuning == b.tcp_tuning,
        a.tcp_egress_recv_buf == b.tcp_egress_recv_buf,
        a.tcp_egress_send_buf == b.tcp_egress_send_buf,
    ensures
        requests(platform, a) == requests(platform, b),
{
}

/// The count of one run after another is the sum of the counts.
pub proof fn law_counts_add_up(a: Seq<bool>, b: Seq<bool>)
    ensures
        accepted(a + b) == accepted(a) + accepted(b),
        accepted(seq![true]) == 1,
        accepted(seq![false]) == 0,
    decreases b.len(),
{
    assert(seq![true].drop_last() == Seq::<bool>::empty());
    assert(seq![false].drop_last() == Seq::<bool>::empty());
    assert(accepted(Seq::<bool>::empty()) == 0);
    if b.len() == 0 {
        assert(a + b == a);
    } else {
        assert((a + b).drop_last() == a + b.drop_last());
        law_counts_add_up(a, b.drop_last());
    }
}

/// A request counts as accepted where the stream gave no error, or said that the
/// kernel took the option, and as rejected otherwise. It is the stream's answer to
/// that very request.
pub proof fn law_outcomes_are_the_answers_of_the_stream<S: EgressStream>(
    stream: &S,
    option: KernelOption,
    value: i32,
    outcome: bool,
)
    ensures
        answered(stream, Request::SetInt { option, value }, outcome) <==> call_ensures(
            S::set_int,
            (stream, option, value),
            outcome,
        ),
        answered(stream, Request::DisableNagle, outcome) ==> exists|reply: std::io::Result<()>|
            #[trigger] call_ensures(S::disable_nagle, (stream,), reply) && reply.is_ok() == outcome,
{
}

/// Each request has one outcome, its own.
pub proof fn law_every_request_has_its_outcome<S: EgressStream>(
    stream: &S,
    asked: Seq<Request>,
    outcomes: Seq<bool>,
    i: int,
)
    requires
        all_answered(stream, asked, outcomes),
        0 <= i < asked.len(),
    ensures
        outcomes.len() == asked.len(),
        answered(stream, asked[i], outcomes[i]),
{
}

/// Two plans for Linux, of any two tunings that are on, begin with the same six
/// requests.
pub proof fn law_plans_begin_alike(
    a: Tuning,
    b: Tuning,
    plan_a: Vec<Request>,
    plan_b: Vec<Request>,
)
    requires
        a.tcp_tuning,
        b.tcp_tuning,
        call_ensures(plan, (Platform::Linux, &a), plan_a),
        call_ensures(plan, (Platform::Linux, &b), plan_b),
    ensures
        plan_a@.take(6) == plan_b@.take(6),
        plan_a@[5] == (Request::SetInt { option: KernelOption::UserTimeout, value: 30_000 }),
{
}

} // verus!
