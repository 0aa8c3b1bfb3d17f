use modulehost::errors::Error;
use modulehost::ids::{ModuleId, ServiceId};
use modulehost::registry::ModuleDescriptor;
use modulehost::runtime::{ModulePhase, ModuleRuntime, RuntimeAction, RuntimeStage};

fn plain_descriptor() -> ModuleDescriptor {
    ModuleDescriptor {
        service_ids: vec![],
        provides_handlers: false,
        enables_direct_closure: false,
    }
}

fn serving_descriptor() -> ModuleDescriptor {
    ModuleDescriptor {
        service_ids: vec![ServiceId::from_name("echo-service")],
        provides_handlers: true,
        enables_direct_closure: true,
    }
}

fn runtime_with(names: Vec<&str>) -> ModuleRuntime {
    let mut rt = ModuleRuntime::new();
    for name in names {
        rt.add_module(ModuleId::from_name(name), plain_descriptor());
    }
    rt
}

fn drive_to_rest(rt: &mut ModuleRuntime) {
    while rt.next_action().is_some() {
        rt.report_success();
    }
}

fn names(log: &Vec<ModuleId>) -> Vec<String> {
    log.iter().map(|m| m.as_str().to_string()).collect()
}

#[test]
fn start_in_registration_order_stop_in_reverse() {
    let mut rt = runtime_with(vec!["a", "b", "c"]);

    drive_to_rest(&mut rt);
    assert!(rt.startup_complete());
    assert_eq!(names(rt.start_log()), vec!["a", "b", "c"]);

    rt.begin_shutdown();
    drive_to_rest(&mut rt);

    assert_eq!(rt.stage(), RuntimeStage::Terminated);
    assert_eq!(names(rt.stop_log()), vec!["c", "b", "a"]);
    assert!(rt.shutdown_outcome().is_ok());
    assert!(!rt.teardown_failed());
}

#[test]
fn optional_steps_follow_the_descriptor() {
    let mut rt = ModuleRuntime::new();
    rt.add_module(ModuleId::from_name("echo"), serving_descriptor());
    rt.add_module(ModuleId::from_name("echo-client"), plain_descriptor());

    let mut actions = Vec::new();
    while let Some(action) = rt.next_action() {
        actions.push(action);
        rt.report_success();
    }

    assert_eq!(
        actions,
        vec![
            RuntimeAction::BuildProvider(0),
            RuntimeAction::RegisterHandlers(0),
            RuntimeAction::EnableDirectClosure(0),
            RuntimeAction::StartModule(0),
            RuntimeAction::BuildProvider(1),
            RuntimeAction::StartModule(1),
        ],
        "a serving module takes every step; a plain one skips the optional ones"
    );
    assert_eq!(rt.phase_of(0), ModulePhase::Started);
    assert_eq!(rt.phase_of(1), ModulePhase::Started);
}

#[test]
fn a_start_failure_unwinds_started_modules_in_reverse() {
    let mut rt = runtime_with(vec!["a", "b", "c"]);

    // Bring "a" up, then fail while starting "b".
    loop {
        match rt.next_action() {
            Some(RuntimeAction::StartModule(1)) => {
                rt.report_failure();
                break;
            },
            Some(_) => rt.report_success(),
            None => panic!("startup must not finish in this scenario"),
        }
    }

    assert_eq!(rt.stage(), RuntimeStage::Unwinding);
    drive_to_rest(&mut rt);

    assert_eq!(rt.stage(), RuntimeStage::Aborted);
    assert_eq!(rt.startup_outcome().unwrap_err(), Error::ModuleStartFailed);
    assert_eq!(names(rt.start_log()), vec!["a"]);
    assert_eq!(names(rt.stop_log()), vec!["a"], "the started module still gets its stop");
    assert_eq!(rt.phase_of(2), ModulePhase::Created, "the later module is never started");
}

#[test]
fn a_stop_failure_is_recorded_and_never_halts_shutdown() {
    let mut rt = runtime_with(vec!["a", "b"]);
    drive_to_rest(&mut rt);
    rt.begin_shutdown();

    // The first stop (module "b") fails; shutdown must still finish.
    let mut failed_once = false;
    while let Some(action) = rt.next_action() {
        match action {
            RuntimeAction::StopModule(_) if !failed_once => {
                failed_once = true;
                rt.report_failure();
            },
            _ => rt.report_success(),
        }
    }

    assert_eq!(rt.stage(), RuntimeStage::Terminated);
    assert_eq!(names(rt.stop_log()), vec!["b", "a"]);
    assert_eq!(names(rt.stop_errors()), vec!["b"]);
    assert_eq!(rt.shutdown_outcome().unwrap_err(), Error::ModuleStopFailed);
}

#[test]
fn an_empty_runtime_completes_immediately() {
    let mut rt = ModuleRuntime::new();
    assert!(rt.startup_complete());
    assert!(rt.next_action().is_none());
    rt.begin_shutdown();
    drive_to_rest(&mut rt);
    assert_eq!(rt.stage(), RuntimeStage::Terminated);
}
