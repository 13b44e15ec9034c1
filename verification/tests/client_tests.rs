use raps_demo_workflows::workflow::client::{CommandResult, RapsClient, RapsClientConfig};
use raps_demo_workflows::workflow::types::{
    AuthAction, BucketAction, BucketParams, ObjectAction, ObjectParams, RapsCommand,
    TranslateAction, TranslateParams,
};

#[test]
fn test_command_result_creation() {
    let result = CommandResult::new(0, "success".to_string(), "".to_string(), 1000);
    assert!(result.success);
    assert_eq!(result.exit_code, 0);
    assert_eq!(result.stdout, "success");
    assert!(result.error_message().is_none());
}

#[test]
fn test_command_result_error() {
    let result = CommandResult::new(1, "".to_string(), "error occurred".to_string(), 1000);
    assert!(!result.success);
    assert_eq!(result.exit_code, 1);
    assert!(result.error_message().is_some());
    assert!(result.error_message().unwrap().contains("error occurred"));
}

#[test]
fn test_build_auth_command_args() {
    let client = RapsClient::new();
    let command = RapsCommand::Auth { action: AuthAction::Status };

    let args = client.build_command_args(&command);
    assert_eq!(args, vec!["auth", "status", "--non-interactive", "--output", "json"]);
}

#[test]
fn test_build_bucket_create_command_args() {
    let client = RapsClient::new();
    let command = RapsCommand::Bucket {
        action: BucketAction::Create,
        params: BucketParams {
            bucket_name: Some("test-bucket".to_string()),
            retention_policy: Some("transient".to_string()),
            region: Some("US".to_string()),
            force: None,
        },
    };

    let args = client.build_command_args(&command);
    assert_eq!(
        args,
        vec![
            "bucket",
            "create",
            "--key",
            "test-bucket",
            "--policy",
            "transient",
            "--region",
            "US",
            "--non-interactive",
            "--output",
            "json"
        ]
    );
}

#[test]
fn test_build_object_upload_command_args() {
    let client = RapsClient::new();
    let command = RapsCommand::Object {
        action: ObjectAction::Upload,
        params: ObjectParams {
            bucket_name: "test-bucket".to_string(),
            object_key: Some("test-file.dwg".to_string()),
            file_path: Some("/path/to/file.dwg".to_string()),
            batch: Some(false),
            expires_in: None,
        },
    };

    let args = client.build_command_args(&command);
    assert_eq!(
        args,
        vec![
            "object",
            "upload",
            "test-bucket",
            "/path/to/file.dwg",
            "--key",
            "test-file.dwg",
            "--non-interactive",
            "--output",
            "json"
        ]
    );
}

#[test]
fn test_build_translate_command_args() {
    let client = RapsClient::new();
    let command = RapsCommand::Translate {
        action: TranslateAction::Start,
        params: TranslateParams {
            urn: Some("test-urn".to_string()),
            format: Some("svf2".to_string()),
            output_dir: None,
            wait: Some(true),
        },
    };

    let args = client.build_command_args(&command);
    assert_eq!(
        args,
        vec![
            "translate",
            "start",
            "test-urn",
            "--format",
            "svf2",
            "--wait",
            "--non-interactive",
            "--output",
            "json"
        ]
    );
}

#[test]
fn test_build_custom_command_args() {
    let client = RapsClient::new();
    let command = RapsCommand::Custom {
        command: "custom-command".to_string(),
        args: vec!["arg1".to_string(), "arg2".to_string()],
    };

    let args = client.build_command_args(&command);
    assert_eq!(
        args,
        vec!["custom-command", "arg1", "arg2", "--non-interactive", "--output", "json"]
    );
}

#[test]
fn test_raps_client_config_default() {
    let config = RapsClientConfig::default();
    assert_eq!(config.raps_binary_path, "raps");
    assert_eq!(config.default_timeout, 300);
    assert!(config.parse_json_output);
    assert!(config.environment.is_empty());
}

fn delete_bucket(force: Option<bool>) -> RapsCommand {
    RapsCommand::Bucket {
        action: BucketAction::Delete,
        params: BucketParams {
            bucket_name: Some("b".to_string()),
            retention_policy: Some("ignored".to_string()),
            region: None,
            force,
        },
    }
}

#[test]
fn the_same_command_gives_the_same_arguments() {
    let client = RapsClient::new();
    let other = RapsClient::with_config(RapsClientConfig::default());
    let command = RapsCommand::Object {
        action: ObjectAction::SignedUrl,
        params: ObjectParams {
            bucket_name: "b".to_string(),
            object_key: Some("k".to_string()),
            file_path: None,
            batch: None,
            expires_in: Some(3600),
        },
    };
    let first = client.build_command_args(&command);
    let second = client.build_command_args(&command.clone());
    assert_eq!(first, second);
    assert_eq!(first, other.build_command_args(&command));
    assert_eq!(
        first,
        vec![
            "object",
            "signed-url",
            "b",
            "k",
            "--expires-in",
            "3600",
            "--non-interactive",
            "--output",
            "json"
        ]
    );
}

#[test]
fn a_forced_deletion_is_confirmed_in_advance() {
    let client = RapsClient::new();
    assert_eq!(
        client.build_command_args(&delete_bucket(Some(true))),
        vec!["bucket", "delete", "--key", "b", "--yes", "--non-interactive", "--output", "json"]
    );
    for force in [None, Some(false)] {
        assert_eq!(
            client.build_command_args(&delete_bucket(force)),
            vec!["bucket", "delete", "--key", "b", "--non-interactive", "--output", "json"]
        );
    }
}
