use app_shell::bootstrap::standard_plan;
use app_shell::bootstrap::Builder;
use app_shell::bootstrap::Plugin;
use app_shell::greeting::greet;
use app_shell::single_instance::on_second_launch;
use app_shell::single_instance::InstanceGuard;
use app_shell::single_instance::Reaction;

#[test]
fn greet_world() {
    assert_eq!(greet("World"), "Hello, World! You've been greeted from Rust!");
}

#[test]
fn greet_empty_string() {
    assert_eq!(greet(""), "Hello, ! You've been greeted from Rust!");
}

#[test]
fn greet_control_characters() {
    assert_eq!(greet("a\nb\t"), "Hello, a\nb\t! You've been greeted from Rust!");
}

#[test]
fn greet_repeated_calls_agree() {
    let first = greet("same");
    let second = greet("same");
    assert_eq!(first, second);
    assert_eq!(first, "Hello, same! You've been greeted from Rust!");
}

#[test]
fn second_launch_focuses_when_main_window_exists() {
    assert_eq!(on_second_launch(true), Reaction::FocusMainWindow);
}

#[test]
fn second_launch_aborts_without_main_window() {
    assert_eq!(on_second_launch(false), Reaction::Abort);
}

#[test]
fn one_focus_request_per_extra_launch() {
    let mut guard = InstanceGuard::new();
    assert_eq!(guard.extra_launch_count(), 0);
    assert_eq!(guard.handle_second_launch(true), Reaction::FocusMainWindow);
    assert_eq!(guard.extra_launch_count(), 1);
    assert_eq!(guard.handle_second_launch(true), Reaction::FocusMainWindow);
    assert_eq!(guard.extra_launch_count(), 2);
}

#[test]
fn standard_plan_is_ready_and_ordered() {
    match standard_plan().finish() {
        Ok(plan) => {
            let expected = vec![
                Plugin::DeepLink,
                Plugin::SingleInstance,
                Plugin::Sql,
                Plugin::Opener,
            ];
            assert_eq!(plan.plugins(), &expected);
        }
        Err(_) => panic!("the standard plan must finish"),
    }
}

#[test]
fn plan_without_single_instance_is_refused() {
    let builder = Builder::new().plugin(Plugin::DeepLink).register_greet();
    match builder.finish() {
        Ok(_) => panic!("a plan without the single-instance plugin must not finish"),
        Err(handed_back) => match handed_back.plugin(Plugin::SingleInstance).finish() {
            Ok(plan) => assert_eq!(plan.plugins().len(), 2),
            Err(_) => panic!("a ready plan must finish"),
        },
    }
}

#[test]
fn plan_without_command_is_refused() {
    let builder = Builder::new().plugin(Plugin::SingleInstance);
    assert!(builder.finish().is_err());
}
