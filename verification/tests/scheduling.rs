use isitonline::{
    keep_responsive, port_from_setting, schedule_for, ClientList, ConfigError, JobRegistry,
    ScheduleError, DEFAULT_PORT,
};

#[test]
fn registered_job_is_taken_once() {
    let mut jobs: JobRegistry<&str> = JobRegistry::new();
    jobs.register(1, "job-1");
    jobs.register(2, "job-2");
    assert!(jobs.contains(1));
    assert_eq!(jobs.take(1), Ok("job-1"));
    assert!(!jobs.contains(1));
    assert_eq!(jobs.take(1), Err(ScheduleError::JobNotFound(1)));
    assert_eq!(jobs.take(2), Ok("job-2"));
}

#[test]
fn registering_again_replaces_the_job() {
    let mut jobs: JobRegistry<u32> = JobRegistry::new();
    jobs.register(5, 10);
    jobs.register(5, 11);
    assert_eq!(jobs.take(5), Ok(11));
    assert_eq!(jobs.take(5), Err(ScheduleError::JobNotFound(5)));
}

#[test]
fn empty_registry_refuses() {
    let mut jobs: JobRegistry<u32> = JobRegistry::new();
    let refused = jobs.take(42).unwrap_err();
    assert_eq!(refused, ScheduleError::JobNotFound(42));
    assert_eq!(refused.message(), "Failed to remove monitor job from schedule");
}

#[test]
fn cron_expressions() {
    assert!(schedule_for("0 * * * * *").is_ok());
    assert!(schedule_for("*/30 * * * * * *").is_ok());
    let refused = schedule_for("every minute").err().unwrap();
    assert_eq!(refused, ScheduleError::InvalidCron);
    assert_eq!(refused.message(), "Invalid cron expression.");
    assert_eq!(schedule_for("").err(), Some(ScheduleError::InvalidCron));
}

#[test]
fn schedule_is_that_of_the_expression() {
    let every_minute = schedule_for("0 * * * * *").unwrap();
    assert_eq!(every_minute.to_string(), "0 * * * * *");
    let every_half_minute = schedule_for("*/30 * * * * *").unwrap();
    assert_eq!(every_half_minute.to_string(), "*/30 * * * * *");
    assert_ne!(every_minute, every_half_minute);
}

#[test]
fn pruning_keeps_responsive_clients_in_order() {
    let kept = keep_responsive(vec!["a", "b", "c", "d"], &vec![true, false, true, false]);
    assert_eq!(kept, vec!["a", "c"]);
    let all = keep_responsive(vec![1, 2, 3], &vec![true, true, true]);
    assert_eq!(all, vec![1, 2, 3]);
    let none = keep_responsive(vec![1, 2, 3], &vec![false, false, false]);
    assert!(none.is_empty());
}

#[test]
fn client_list_registers_and_replaces() {
    let mut list = ClientList::new();
    assert_eq!(list.len(), 0);
    list.register("x");
    list.register("y");
    list.register("z");
    assert_eq!(list.clients(), &vec!["x", "y", "z"]);
    list.prune(&vec![false, true, true]);
    assert_eq!(list.clients(), &vec!["y", "z"]);
    assert_eq!(list.len(), 2);
}

#[test]
fn pruning_keeps_clients_registered_after_the_ping() {
    let mut list = ClientList::new();
    list.register("a");
    list.register("b");
    list.register("c");
    let pinged = list.clients().len();
    // A subscriber arrives while the pings are out.
    list.register("late");
    let responsive = vec![false, true, false];
    assert_eq!(responsive.len(), pinged);
    list.prune(&responsive);
    assert_eq!(list.clients(), &vec!["b", "late"]);
}

#[test]
fn pruning_with_no_ping_keeps_everyone() {
    let mut list = ClientList::new();
    list.register(1);
    list.register(2);
    list.prune(&Vec::new());
    assert_eq!(list.clients(), &vec![1, 2]);
}

#[test]
fn port_settings() {
    assert_eq!(port_from_setting(None), Ok(8080));
    assert_eq!(DEFAULT_PORT, 8080);
    assert_eq!(port_from_setting(Some("80")), Ok(80));
    assert_eq!(port_from_setting(Some("+443")), Ok(443));
    assert_eq!(port_from_setting(Some("0080")), Ok(80));
    assert_eq!(port_from_setting(Some("0")), Ok(0));
    assert_eq!(port_from_setting(Some("65535")), Ok(65535));
    for bad in ["65536", "", "+", "-1", "8o", " 80", "99999999999", "++1"] {
        assert_eq!(port_from_setting(Some(bad)), Err(ConfigError::InvalidPort), "{bad}");
        assert!(bad.parse::<u16>().is_err());
    }
}
