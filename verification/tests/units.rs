use ruku::desired::ConfigError;
use ruku::desired::build_desired;
use ruku::desired::decimal_string;
use ruku::desired::exposure;
use ruku::desired::image_reference;
use ruku::fault::Fault;
use ruku::inspect::Observed;
use ruku::inspect::Summary;
use ruku::inspect::observe;
use ruku::plan::Act;
use ruku::plan::end_acts;
use ruku::plan::run_acts;
use ruku::session::RuntimeCall;
use ruku::session::created_message;
use ruku::session::nothing_running_message;
use ruku::status::ContainerStatus;
use ruku::status::status_from_label;

#[test]
fn image_reference_joins_name_and_version() {
    assert_eq!(image_reference("web", "1.0"), "web:1.0");
    assert_eq!(image_reference("nginx", "latest"), "nginx:latest");
}

#[test]
fn decimal_rendering_is_exact() {
    assert_eq!(decimal_string(0), "0");
    assert_eq!(decimal_string(7), "7");
    assert_eq!(decimal_string(80), "80");
    assert_eq!(decimal_string(8080), "8080");
    assert_eq!(decimal_string(65535), "65535");
}

#[test]
fn desired_spec_builder_accepts_well_formed_input() {
    let d = build_desired("web", "1.2", 8080).unwrap();
    assert_eq!(d.image_reference, "web:1.2");
    assert_eq!(d.exposed_port, 8080);
    assert_eq!(d.host_bind_port, 8080);
}

#[test]
fn desired_spec_builder_rejects_empty_name() {
    assert_eq!(build_desired("", "1.2", 8080), Err(ConfigError::EmptyName));
}

#[test]
fn desired_spec_builder_rejects_empty_version() {
    assert_eq!(build_desired("web", "", 8080), Err(ConfigError::EmptyVersion));
}

#[test]
fn exposure_renders_runtime_port_vocabulary() {
    let d = build_desired("web", "1.0", 8080).unwrap();
    let e = exposure(&d);
    assert_eq!(e.container_port_key, "8080/tcp");
    assert_eq!(e.host_port_text, "8080");

    let d = build_desired("web", "1.0", 443).unwrap();
    let e = exposure(&d);
    assert_eq!(e.container_port_key, "443/tcp");
    assert_eq!(e.host_port_text, "443");
}

#[test]
fn status_labels_follow_runtime_vocabulary() {
    assert_eq!(status_from_label(""), Some(ContainerStatus::Empty));
    assert_eq!(status_from_label("created"), Some(ContainerStatus::Created));
    assert_eq!(status_from_label("running"), Some(ContainerStatus::Running));
    assert_eq!(status_from_label("restarting"), Some(ContainerStatus::Restarting));
    assert_eq!(status_from_label("removing"), Some(ContainerStatus::Removing));
    assert_eq!(status_from_label("paused"), Some(ContainerStatus::Paused));
    assert_eq!(status_from_label("exited"), Some(ContainerStatus::Exited));
    assert_eq!(status_from_label("dead"), Some(ContainerStatus::Dead));
    assert_eq!(status_from_label("hibernating"), None);
    assert_eq!(status_from_label("Running"), None);
}

#[test]
fn run_plan_per_status() {
    for status in [ContainerStatus::Running, ContainerStatus::Restarting] {
        assert_eq!(run_acts(status), vec![Act::Stop, Act::Remove, Act::Create, Act::Start]);
    }
    for status in [
        ContainerStatus::Created,
        ContainerStatus::Paused,
        ContainerStatus::Exited,
        ContainerStatus::Dead,
    ] {
        assert_eq!(run_acts(status), vec![Act::Remove, Act::Create, Act::Start]);
    }
    for status in [ContainerStatus::Absent, ContainerStatus::Empty, ContainerStatus::Removing] {
        assert_eq!(run_acts(status), vec![Act::Create, Act::Start]);
    }
}

#[test]
fn end_plan_per_status() {
    assert_eq!(end_acts(ContainerStatus::Absent), Vec::<Act>::new());
    for status in [
        ContainerStatus::Empty,
        ContainerStatus::Created,
        ContainerStatus::Running,
        ContainerStatus::Restarting,
        ContainerStatus::Removing,
        ContainerStatus::Paused,
        ContainerStatus::Exited,
        ContainerStatus::Dead,
    ] {
        assert_eq!(end_acts(status), vec![Act::Stop, Act::Remove]);
    }
}

#[test]
fn observe_classifies_listing_results() {
    assert_eq!(
        observe(None),
        Ok(Observed { id: None, status: ContainerStatus::Absent })
    );
    assert_eq!(
        observe(Some(Summary {
            id: Some("c1".to_string()),
            status_label: Some("paused".to_string()),
        })),
        Ok(Observed { id: Some("c1".to_string()), status: ContainerStatus::Paused })
    );
    assert_eq!(
        observe(Some(Summary { id: None, status_label: Some("running".to_string()) })),
        Err(Fault::MissingId)
    );
    assert_eq!(
        observe(Some(Summary { id: Some("c1".to_string()), status_label: None })),
        Err(Fault::MissingStatus)
    );
    assert_eq!(
        observe(Some(Summary {
            id: Some("c1".to_string()),
            status_label: Some("gone".to_string()),
        })),
        Err(Fault::UnknownStatus)
    );
}

#[test]
fn fault_messages_are_operator_readable() {
    assert_eq!(Fault::ListFailed.message(), "Failed to list containers");
    assert_eq!(Fault::CreateFailed.message(), "Failed to create container");
    assert_eq!(Fault::StartFailed.message(), "Failed to start container");
    assert_eq!(Fault::StopFailed.message(), "Failed to stop container");
    assert_eq!(Fault::RemoveFailed.message(), "Failed to remove container");
    assert_eq!(Fault::MissingId.message(), "Failed to get container id");
    assert_eq!(Fault::MissingStatus.message(), "Failed to get container state");
    assert_eq!(Fault::UnknownStatus.message(), "Unrecognized container state");
}

#[test]
fn progress_messages_name_the_container() {
    let stop = RuntimeCall::Stop { id: "abc".to_string() };
    assert_eq!(stop.done_message().unwrap(), "Stopped container with id: abc");
    let remove = RuntimeCall::Remove { id: "abc".to_string() };
    assert_eq!(remove.done_message().unwrap(), "Removed container with id: abc");
    let start = RuntimeCall::Start { id: "abc".to_string() };
    assert_eq!(start.done_message().unwrap(), "Started container with id: abc");
    assert_eq!(RuntimeCall::List.done_message(), None);
    assert_eq!(RuntimeCall::Create.done_message(), None);
    assert_eq!(created_message("abc"), "Created container with id: abc");
    assert_eq!(nothing_running_message(), "No application is running");
}
