use walkley_usb::lifecycle::{boot_command_line, Host, HostAction, HostEvent, HostFatal};

/// A kernel runtime that only keeps track of whether it runs.
struct MockKernel {
    running: bool,
    command_line: String,
    hooks: usize,
}

impl MockKernel {
    fn start(&mut self, command_line: &str) -> i32 {
        self.running = true;
        self.command_line = String::from(command_line);
        0
    }

    fn is_running(&self) -> i32 {
        if self.running { 1 } else { 0 }
    }

    fn halt(&mut self) -> i32 {
        self.running = false;
        0
    }
}

#[test]
fn lkl_start_stop() {
    let mut kernel = MockKernel { running: false, command_line: String::new(), hooks: 0 };
    let mut host = Host::new(false);
    let mut out: Vec<String> = Vec::new();
    assert_eq!(host.pending, HostAction::StartKernel);
    let status = kernel.start(boot_command_line());
    assert_eq!(status, 0);
    assert_eq!(kernel.command_line, "mem=16M loglevel=8");
    assert_eq!(kernel.is_running(), 1);
    let action = host.step(&HostEvent::Started { status }, &mut out);
    assert_eq!(action, HostAction::Enumerate);
    let action = host.step(&HostEvent::Enumerated { count: Some(0) }, &mut out);
    assert_eq!(action, HostAction::Halt);
    let status = kernel.halt();
    assert_eq!(status, 0);
    assert_eq!(kernel.is_running(), 0);
    let action = host.step(&HostEvent::Halted { status }, &mut out);
    assert_eq!(action, HostAction::Exit);
    assert_eq!(kernel.hooks, 0);
}

#[test]
fn boot_command_line_text() {
    assert_eq!(boot_command_line(), "mem=16M loglevel=8");
}

#[test]
fn successful_run_reports_the_count() {
    let mut host = Host::new(true);
    let mut out: Vec<String> = Vec::new();
    assert_eq!(host.step(&HostEvent::Started { status: 0 }, &mut out), HostAction::Enumerate);
    assert!(out.is_empty());
    assert_eq!(host.step(&HostEvent::Enumerated { count: Some(7) }, &mut out), HostAction::Diagnose);
    assert_eq!(out, vec![String::from("processed 7 USB devices")]);
    assert_eq!(host.step(&HostEvent::Diagnosed, &mut out), HostAction::Halt);
    assert_eq!(host.step(&HostEvent::Halted { status: -1 }, &mut out), HostAction::Exit);
    assert_eq!(out.len(), 1);
    assert!(!host.accepts(&HostEvent::Halted { status: 0 }));
}

#[test]
fn diagnostic_hook_is_optional() {
    let mut host = Host::new(false);
    let mut out: Vec<String> = Vec::new();
    host.step(&HostEvent::Started { status: 1 }, &mut out);
    assert_eq!(host.step(&HostEvent::Enumerated { count: Some(1) }, &mut out), HostAction::Halt);
    assert_eq!(out, vec![String::from("processed 1 USB devices")]);
}

#[test]
fn kernel_start_failure_is_fatal() {
    let mut host = Host::new(true);
    let mut out: Vec<String> = Vec::new();
    let action = host.step(&HostEvent::Started { status: -12 }, &mut out);
    assert_eq!(action, HostAction::Abort { cause: HostFatal::KernelStart { status: -12 } });
    assert_eq!(HostFatal::KernelStart { status: -12 }.to_message(), "lkl_start_kernel() failed: -12");
    assert!(out.is_empty());
    assert!(!host.accepts(&HostEvent::Enumerated { count: Some(1) }));
}

#[test]
fn enumeration_without_result_is_fatal() {
    let mut host = Host::new(true);
    let mut out: Vec<String> = Vec::new();
    host.step(&HostEvent::Started { status: 0 }, &mut out);
    let action = host.step(&HostEvent::Enumerated { count: None }, &mut out);
    assert_eq!(action, HostAction::Abort { cause: HostFatal::Enumeration });
    assert_eq!(HostFatal::Enumeration.to_message(), "failed to iterate USB devices");
    assert!(out.is_empty());
}

#[test]
fn only_the_outcome_of_the_pending_action_is_accepted() {
    let host = Host::new(true);
    assert!(host.accepts(&HostEvent::Started { status: 0 }));
    assert!(!host.accepts(&HostEvent::Halted { status: 0 }));
    assert!(!host.accepts(&HostEvent::Diagnosed));
    assert!(!host.accepts(&HostEvent::Enumerated { count: None }));
}

#[test]
fn offered_outcomes_are_taken_or_left() {
    let mut host = Host::new(false);
    let mut out: Vec<String> = Vec::new();
    assert_eq!(host.offer(&HostEvent::Diagnosed, &mut out), None);
    assert_eq!(host, Host::new(false));
    assert_eq!(host.offer(&HostEvent::Started { status: 0 }, &mut out), Some(HostAction::Enumerate));
    assert_eq!(host.offer(&HostEvent::Enumerated { count: Some(2) }, &mut out), Some(HostAction::Halt));
    assert_eq!(out, vec![String::from("processed 2 USB devices")]);
    assert_eq!(host.offer(&HostEvent::Halted { status: 0 }, &mut out), Some(HostAction::Exit));
    assert_eq!(host.offer(&HostEvent::Halted { status: 0 }, &mut out), None);
}
