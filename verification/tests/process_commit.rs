use debug_session::{
    Backtrace, DebugSession, DiagnosticState, InstallError, LogLevel, Outcome,
};
use tracing_subscriber::filter::{LevelFilter, Targets};

fn installed_filter() -> Option<Targets> {
    tracing_core::dispatcher::get_default(|dispatch| dispatch.downcast_ref::<Targets>().cloned())
}

#[test]
fn first_commit_installs_the_filter_of_its_session() {
    assert!(installed_filter().is_none());

    let session = DebugSession::new()
        .filter(LogLevel::Info)
        .module("svc", LogLevel::Warn)
        .module("svc", LogLevel::Trace)
        .backtrace(Backtrace::Full);
    let expected = session.build_filter();
    let mut state = DiagnosticState::new();
    let commit = session.init(&mut state).expect("the first session is committed");
    assert_eq!(commit.subscriber(), Ok(()));
    assert_eq!(commit.token(), "full");

    let installed = installed_filter().expect("the process has a target filter");
    assert_eq!(installed, expected);
    assert_eq!(installed.default_level(), Some(LevelFilter::INFO));
    let trace = LevelFilter::TRACE.into_level().unwrap();
    let debug = LevelFilter::DEBUG.into_level().unwrap();
    let info = LevelFilter::INFO.into_level().unwrap();
    assert!(installed.would_enable("svc", &trace));
    assert!(installed.would_enable("other", &info));
    assert!(!installed.would_enable("other", &debug));

    assert_eq!(commit.conclude(Some("full")), Outcome::Installed);
    assert!(env_logger::builder().try_init().is_err());

    let later = DebugSession::new().filter(LogLevel::Off).module("svc", LogLevel::Off);
    assert!(later.init(&mut state).is_none());
    assert_eq!(installed_filter(), Some(expected.clone()));
    let kept = state.committed().unwrap();
    assert_eq!(kept.default_level(), LogLevel::Info);
    assert_eq!(kept.backtrace_detail(), Backtrace::Full);

    let mut other = DiagnosticState::new();
    let commit = DebugSession::new().filter(LogLevel::Off).init(&mut other).unwrap();
    assert_eq!(commit.subscriber(), Err(InstallError::Subscriber));
    assert_eq!(commit.conclude(Some("short")), Outcome::Refused(InstallError::Subscriber));
    assert_eq!(installed_filter(), Some(expected));
}
