use std::cell::RefCell;
use std::io;

use aether::environment::Environment;
use aether::sysprofile::{build_tuning, Host, Memory, Tuning};
use aether::tcp_tuning::{apply, plan, tally, EgressStream, KernelOption, Platform, Request};

struct Socket {
    nagle: bool,
    rejects: Option<KernelOption>,
    asked: RefCell<Vec<(KernelOption, i32)>>,
    nagle_asked: RefCell<usize>,
}

impl Socket {
    fn new(nagle: bool, rejects: Option<KernelOption>) -> Socket {
        Socket {
            nagle,
            rejects,
            asked: RefCell::new(Vec::new()),
            nagle_asked: RefCell::new(0),
        }
    }
}

impl EgressStream for Socket {
    fn disable_nagle(&self) -> io::Result<()> {
        *self.nagle_asked.borrow_mut() += 1;
        if self.nagle {
            Ok(())
        } else {
            Err(io::Error::from(io::ErrorKind::Other))
        }
    }

    fn set_int(&self, option: KernelOption, value: i32) -> bool {
        self.asked.borrow_mut().push((option, value));
        self.rejects != Some(option)
    }
}

fn settings(tuning: &str) -> Tuning {
    let mut env = Environment::new();
    env.set("AETHER_TCP_TUNING".to_string(), tuning.to_string());
    build_tuning(&Host {
        parallelism: Some(8),
        memory: Memory::Unknown,
        env,
    })
}

fn all() -> Vec<(KernelOption, i32)> {
    vec![
        (KernelOption::KeepAlive, 1),
        (KernelOption::KeepIdle, 30),
        (KernelOption::KeepInterval, 10),
        (KernelOption::KeepCount, 3),
        (KernelOption::UserTimeout, 30_000),
        (KernelOption::RecvBuf, 1048576),
        (KernelOption::SendBuf, 524288),
    ]
}

#[test]
fn a_willing_kernel_takes_everything() {
    let socket = Socket::new(true, None);
    assert_eq!(apply(&socket, Platform::Linux, &settings("on")), 8);
    assert_eq!(*socket.asked.borrow(), all());
    assert_eq!(*socket.nagle_asked.borrow(), 1);
}

#[test]
fn a_rejected_option_costs_only_itself() {
    for (option, _) in all() {
        let socket = Socket::new(true, Some(option));
        assert_eq!(apply(&socket, Platform::Linux, &settings("on")), 7);
        assert_eq!(*socket.asked.borrow(), all());
    }
    let socket = Socket::new(false, Some(KernelOption::KeepIdle));
    assert_eq!(apply(&socket, Platform::Linux, &settings("on")), 6);
    assert_eq!(*socket.asked.borrow(), all());
}

#[test]
fn off_disables_everything() {
    let socket = Socket::new(true, None);
    assert_eq!(apply(&socket, Platform::Linux, &settings("off")), 0);
    assert!(socket.asked.borrow().is_empty());
    assert_eq!(*socket.nagle_asked.borrow(), 0);
    assert!(plan(Platform::Linux, &settings("off")).is_empty());
}

#[test]
fn other_platforms_only_lose_nagle() {
    let socket = Socket::new(true, None);
    assert_eq!(apply(&socket, Platform::Other, &settings("on")), 1);
    assert!(socket.asked.borrow().is_empty());
    assert_eq!(plan(Platform::Other, &settings("on")), vec![Request::DisableNagle]);
}

#[test]
fn a_buffer_too_large_for_the_kernel_is_left_alone() {
    let mut tuning = settings("on");
    tuning.tcp_egress_recv_buf = i32::MAX as usize + 1;
    tuning.tcp_egress_send_buf = i32::MAX as usize;
    let planned = plan(Platform::Linux, &tuning);
    assert_eq!(planned.len(), 7);
    assert_eq!(
        planned[6],
        Request::SetInt { option: KernelOption::SendBuf, value: i32::MAX }
    );
}

#[test]
fn a_tally_counts_what_was_accepted() {
    assert_eq!(tally(&vec![]), 0);
    assert_eq!(tally(&vec![true, false, true]), 2);
    assert_eq!(tally(&vec![true, true]), 2);
}
