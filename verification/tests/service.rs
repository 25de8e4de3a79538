use menote_launcher::pages::UiMessage;
use menote_launcher::service::{
    exit_message, is_http_reply, probe_address, service_url, ChildState, Command, Event, Output,
    Stage, Step, Worker, PORT, PROBE_INTERVAL_MS, PROBE_ONCE_MS, PROBE_TIMEOUT_MS, REUSE_PAUSE_MS,
};

fn describe(step: &Step) -> (Vec<String>, String) {
    let outs = step
        .outputs
        .iter()
        .map(|o| match o {
            Output::Send(UiMessage::Status(t)) => format!("status:{t}"),
            Output::Send(UiMessage::Ready(u)) => format!("ready:{u}"),
            Output::Send(UiMessage::Fatal(t)) => format!("fatal:{t}"),
            Output::Pause(ms) => format!("pause:{ms}"),
        })
        .collect();
    let cmd = match &step.command {
        Command::Probe => "probe".to_string(),
        Command::PrepareRuntime => "runtime".to_string(),
        Command::PrepareJunctions => "junctions".to_string(),
        Command::CheckDatabase => "database".to_string(),
        Command::EnsureLock(b) => format!("lock:{b}"),
        Command::Launch => "launch".to_string(),
        Command::CheckDeadline => "deadline".to_string(),
        Command::CheckChild => "child".to_string(),
        Command::Finish(Ok(())) => "finish:ok".to_string(),
        Command::Finish(Err(e)) => format!("finish:err:{e}"),
    };
    (outs, cmd)
}

fn step(w: &mut Worker, e: Event) -> (Vec<String>, String) {
    assert!(w.accepts(&e));
    describe(&w.advance(e))
}

#[test]
fn constants_match_the_launcher() {
    assert_eq!(PORT, 3107);
    assert_eq!(PROBE_TIMEOUT_MS, 180_000);
    assert_eq!(PROBE_ONCE_MS, 800);
    assert_eq!(PROBE_INTERVAL_MS, 350);
    assert_eq!(REUSE_PAUSE_MS, 400);
}

#[test]
fn urls_follow_the_install_state() {
    assert_eq!(service_url(true), "http://localhost:3107/admin");
    assert_eq!(service_url(false), "http://localhost:3107/install");
    assert_eq!(probe_address(), "127.0.0.1:3107");
}

#[test]
fn http_reply_detection() {
    let mut buf = [0u8; 8];
    buf[..8].copy_from_slice(b"HTTP/1.1");
    assert!(is_http_reply(&buf, 8));
    assert!(is_http_reply(&buf, 4));
    assert!(!is_http_reply(&buf, 3));
    buf[..4].copy_from_slice(b"http");
    assert!(!is_http_reply(&buf, 8));
}

#[test]
fn running_service_is_reused() {
    let (mut w, first) = Worker::start(true);
    assert!(matches!(first, Command::Probe));
    let (outs, cmd) = step(&mut w, Event::Probed(true));
    assert_eq!(
        outs,
        vec![
            "status:检测到 MeNote 服务已在运行，正在连接…".to_string(),
            "pause:400".to_string(),
            "ready:http://localhost:3107/admin".to_string(),
        ]
    );
    assert_eq!(cmd, "finish:ok");
    assert_eq!(w.stage, Stage::Done);
    assert!(!w.accepts(&Event::Probed(true)));
}

#[test]
fn full_start_opens_the_install_wizard_without_database() {
    let (mut w, _) = Worker::start(false);
    assert_eq!(step(&mut w, Event::Probed(false)), (vec![], "runtime".to_string()));
    assert_eq!(step(&mut w, Event::StepResult(Ok(()))), (vec![], "junctions".to_string()));
    assert_eq!(step(&mut w, Event::StepResult(Ok(()))), (vec![], "database".to_string()));
    assert_eq!(step(&mut w, Event::DatabaseFound(false)), (vec![], "lock:false".to_string()));
    assert_eq!(
        step(&mut w, Event::StepResult(Ok(()))),
        (vec!["status:正在启动服务…".to_string()], "launch".to_string())
    );
    assert_eq!(step(&mut w, Event::StepResult(Ok(()))), (vec![], "deadline".to_string()));
    assert_eq!(step(&mut w, Event::WithinDeadline(true)), (vec![], "probe".to_string()));
    assert_eq!(step(&mut w, Event::Probed(false)), (vec![], "child".to_string()));
    assert_eq!(
        step(&mut w, Event::Child(ChildState::Running)),
        (vec!["pause:350".to_string()], "deadline".to_string())
    );
    assert_eq!(step(&mut w, Event::WithinDeadline(true)), (vec![], "probe".to_string()));
    assert_eq!(
        step(&mut w, Event::Probed(true)),
        (vec!["ready:http://localhost:3107/install".to_string()], "finish:ok".to_string())
    );
}

#[test]
fn database_found_after_links_opens_admin() {
    let (mut w, _) = Worker::start(false);
    step(&mut w, Event::Probed(false));
    step(&mut w, Event::StepResult(Ok(())));
    step(&mut w, Event::StepResult(Ok(())));
    assert_eq!(step(&mut w, Event::DatabaseFound(true)).1, "lock:true");
    step(&mut w, Event::StepResult(Ok(())));
    step(&mut w, Event::StepResult(Ok(())));
    step(&mut w, Event::WithinDeadline(true));
    assert_eq!(
        step(&mut w, Event::Probed(true)).0,
        vec!["ready:http://localhost:3107/admin".to_string()]
    );
}

#[test]
fn preparation_failures_are_forwarded() {
    let (mut w, _) = Worker::start(false);
    step(&mut w, Event::Probed(false));
    assert_eq!(
        step(&mut w, Event::StepResult(Err("清理旧运行环境失败：busy".to_string()))),
        (vec![], "finish:err:清理旧运行环境失败：busy".to_string())
    );
    assert!(!w.accepts(&Event::StepResult(Ok(()))));

    let (mut w, _) = Worker::start(false);
    step(&mut w, Event::Probed(false));
    step(&mut w, Event::StepResult(Ok(())));
    assert_eq!(
        step(&mut w, Event::StepResult(Err("mklink".to_string()))).1,
        "finish:err:mklink"
    );
}

#[test]
fn lock_step_result_does_not_matter() {
    let (mut w, _) = Worker::start(true);
    step(&mut w, Event::Probed(false));
    step(&mut w, Event::StepResult(Ok(())));
    step(&mut w, Event::StepResult(Ok(())));
    step(&mut w, Event::DatabaseFound(true));
    assert_eq!(step(&mut w, Event::StepResult(Err("x".to_string()))).1, "launch");
    assert_eq!(
        step(&mut w, Event::StepResult(Err("启动 node 失败：no".to_string()))).1,
        "finish:err:启动 node 失败：no"
    );
}

fn launched() -> Worker {
    let (mut w, _) = Worker::start(false);
    step(&mut w, Event::Probed(false));
    step(&mut w, Event::StepResult(Ok(())));
    step(&mut w, Event::StepResult(Ok(())));
    step(&mut w, Event::DatabaseFound(false));
    step(&mut w, Event::StepResult(Ok(())));
    step(&mut w, Event::StepResult(Ok(())));
    w
}

#[test]
fn timeout_ends_the_run() {
    let mut w = launched();
    assert_eq!(
        step(&mut w, Event::WithinDeadline(false)).1,
        "finish:err:服务未能在限定时间内就绪（可能端口被占用或运行环境异常）"
    );
}

#[test]
fn child_exit_ends_the_run() {
    let mut w = launched();
    step(&mut w, Event::WithinDeadline(true));
    step(&mut w, Event::Probed(false));
    assert_eq!(
        step(&mut w, Event::Child(ChildState::Exited(Some(3)))).1,
        "finish:err:服务进程启动即退出（详见 server.log 尾部），退出码：Some(3)"
    );
    let mut w = launched();
    step(&mut w, Event::WithinDeadline(true));
    step(&mut w, Event::Probed(false));
    assert_eq!(
        step(&mut w, Event::Child(ChildState::Exited(None))).1,
        "finish:err:服务进程启动即退出（详见 server.log 尾部），退出码：Some(-1)"
    );
}

#[test]
fn exit_messages_render_signed_codes() {
    assert!(exit_message(0).ends_with("退出码：Some(0)"));
    assert!(exit_message(-1073741510).ends_with("退出码：Some(-1073741510)"));
    assert!(exit_message(i32::MIN).ends_with("Some(-2147483648)"));
    assert!(exit_message(i32::MAX).ends_with("Some(2147483647)"));
}

#[test]
fn events_out_of_turn_are_not_accepted() {
    let (w, _) = Worker::start(false);
    assert!(!w.accepts(&Event::StepResult(Ok(()))));
    assert!(!w.accepts(&Event::DatabaseFound(true)));
    assert!(!w.accepts(&Event::Child(ChildState::Running)));
    assert!(w.accepts(&Event::Probed(false)));
}
