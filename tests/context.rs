use dotazure::path::join;
use dotazure::{context_from_config, AzdContext, AzdContextBuilder, BuildStep, Error, ErrorKind, Reply, Request};

fn marker_request(step: &BuildStep) -> Option<String> {
    match step {
        BuildStep::Pending(_, Request::MarkerExists(p)) => Some(p.clone()),
        _ => None,
    }
}

/// Answers a resolution from a set of existing files and one config file.
fn resolve(
    mut step: BuildStep,
    cwd: &str,
    files: &[&str],
    config: Result<&[u8], ErrorKind>,
) -> Result<AzdContext, Error> {
    for _ in 0..64 {
        step = match step {
            BuildStep::Done(r) => return r,
            BuildStep::Pending(resolver, request) => {
                let reply = match request {
                    Request::CurrentDir => Reply::CurrentDir(Ok(cwd.to_string())),
                    Request::MarkerExists(p) => Reply::MarkerExists(files.contains(&p.as_str())),
                    Request::ReadConfig(_) => Reply::ReadConfig(match config {
                        Ok(b) => Ok(b.to_vec()),
                        Err(kind) => Err(Error::new(kind, "cannot read".to_string())),
                    }),
                    Request::LoadEnvFile(_, _) => panic!("resolution does not load files"),
                };
                resolver.resume(reply)
            }
        };
    }
    panic!("resolution did not finish");
}

fn builder_at(dir: &str) -> AzdContextBuilder {
    AzdContext::builder().current_dir(dir.to_string(), true).unwrap()
}

#[test]
fn nearest_ancestor_with_marker_is_project_dir() {
    let files = ["/p/azure.yaml", "/azure.yaml"];
    let b = builder_at("/p/a/b/c").environment_name("dev".to_string()).unwrap();
    let ctx = resolve(b.build(), "/", &files, Err(ErrorKind::NotFound)).unwrap();
    assert_eq!(ctx.project_dir(), "/p");
    assert_eq!(ctx.environment_name(), "dev");
}

#[test]
fn starting_directory_itself_can_be_project_dir() {
    let files = ["/p/azure.yaml", "/azure.yaml"];
    let b = builder_at("/p").environment_name("dev".to_string()).unwrap();
    let ctx = resolve(b.build(), "/", &files, Err(ErrorKind::NotFound)).unwrap();
    assert_eq!(ctx.project_dir(), "/p");
}

#[test]
fn walk_asks_each_ancestor_nearest_first() {
    let step = builder_at("/p/a").build();
    assert_eq!(marker_request(&step).as_deref(), Some("/p/a/azure.yaml"));
    let step = match step {
        BuildStep::Pending(r, _) => r.resume(Reply::MarkerExists(false)),
        BuildStep::Done(_) => panic!("expected a request"),
    };
    assert_eq!(marker_request(&step).as_deref(), Some("/p/azure.yaml"));
    let step = match step {
        BuildStep::Pending(r, _) => r.resume(Reply::MarkerExists(false)),
        BuildStep::Done(_) => panic!("expected a request"),
    };
    assert_eq!(marker_request(&step).as_deref(), Some("/azure.yaml"));
}

#[test]
fn no_marker_anywhere_is_not_found() {
    let b = builder_at("/x/y");
    let err = resolve(b.build(), "/", &[], Err(ErrorKind::NotFound)).unwrap_err();
    assert_eq!(*err.kind(), ErrorKind::NotFound);
    assert_eq!(err.message(), "no project exists; to create a new project, run `azd init`");
}

#[test]
fn missing_current_dir_is_io_error() {
    let err = AzdContext::builder().current_dir("/does/not/exist".to_string(), false).unwrap_err();
    assert_eq!(*err.kind(), ErrorKind::Io);
    assert_eq!(err.message(), "/does/not/exist does not exist");
}

#[test]
fn empty_environment_name_is_invalid_data() {
    let err = AzdContext::builder().environment_name(String::new()).unwrap_err();
    assert_eq!(*err.kind(), ErrorKind::InvalidData);
    assert_eq!(err.message(), "name cannot be empty");
}

#[test]
fn default_environment_from_stored_config() {
    let config = br#"{"defaultEnvironment": "dev"}"#;
    let ctx = resolve(builder_at("/proj").build(), "/", &["/proj/azure.yaml"], Ok(config)).unwrap();
    assert_eq!(ctx.project_dir(), "/proj");
    assert_eq!(ctx.environment_name(), "dev");
}

#[test]
fn stored_config_path_is_under_environment_dir() {
    let step = builder_at("/proj").build();
    let step = match step {
        BuildStep::Pending(r, _) => r.resume(Reply::MarkerExists(true)),
        BuildStep::Done(_) => panic!("expected a request"),
    };
    match step {
        BuildStep::Pending(_, Request::ReadConfig(p)) => assert_eq!(p, "/proj/.azure/config.json"),
        _ => panic!("expected the stored config to be read"),
    }
}

#[test]
fn other_config_members_are_ignored() {
    let config = br#"{"version": 1, "defaultEnvironment": "prod", "extra": [true]}"#;
    let ctx = resolve(builder_at("/proj").build(), "/", &["/proj/azure.yaml"], Ok(config)).unwrap();
    assert_eq!(ctx.environment_name(), "prod");
}

#[test]
fn config_without_default_is_invalid_data() {
    let config = b"{}";
    let err = resolve(builder_at("/proj").build(), "/", &["/proj/azure.yaml"], Ok(config)).unwrap_err();
    assert_eq!(*err.kind(), ErrorKind::InvalidData);
    assert_eq!(err.message(), "'/proj/.azure/config.json' does not define `defaultEnvironment`");
}

#[test]
fn config_with_empty_default_is_invalid_data() {
    let config = br#"{"defaultEnvironment": ""}"#;
    let err = resolve(builder_at("/proj").build(), "/", &["/proj/azure.yaml"], Ok(config)).unwrap_err();
    assert_eq!(*err.kind(), ErrorKind::InvalidData);
}

#[test]
fn malformed_config_is_invalid_data() {
    let config = b"{\"defaultEnvironment\": ";
    let err = resolve(builder_at("/proj").build(), "/", &["/proj/azure.yaml"], Ok(config)).unwrap_err();
    assert_eq!(*err.kind(), ErrorKind::InvalidData);
    assert!(!err.message().is_empty());
}

#[test]
fn missing_config_error_is_passed_through() {
    let err = resolve(builder_at("/proj").build(), "/", &["/proj/azure.yaml"], Err(ErrorKind::NotFound))
        .unwrap_err();
    assert_eq!(*err.kind(), ErrorKind::NotFound);
    assert_eq!(err.message(), "cannot read");
}

#[test]
fn explicit_name_skips_stored_config() {
    let b = builder_at("/proj").environment_name("qa".to_string()).unwrap();
    let ctx = resolve(b.build(), "/", &["/proj/azure.yaml"], Err(ErrorKind::Io)).unwrap();
    assert_eq!(ctx.environment_name(), "qa");
}

#[test]
fn working_directory_is_used_by_default() {
    let step = AzdContext::builder().build();
    assert!(matches!(step, BuildStep::Pending(_, Request::CurrentDir)));
    let config = br#"{"defaultEnvironment": "dev"}"#;
    let ctx = resolve(step, "/w/sub", &["/w/azure.yaml"], Ok(config)).unwrap();
    assert_eq!(ctx.project_dir(), "/w");
}

#[test]
fn working_directory_error_is_passed_through() {
    let step = AzdContext::builder().build();
    let step = match step {
        BuildStep::Pending(r, _) => r.resume(Reply::CurrentDir(Err(Error::new(ErrorKind::Io, "denied".to_string())))),
        BuildStep::Done(_) => panic!("expected a request"),
    };
    match step {
        BuildStep::Done(Err(e)) => assert_eq!(*e.kind(), ErrorKind::Io),
        _ => panic!("expected the error"),
    }
}

#[test]
fn unrelated_reply_repeats_request() {
    let step = builder_at("/proj").build();
    let step = match step {
        BuildStep::Pending(r, _) => r.resume(Reply::CurrentDir(Ok("/else".to_string()))),
        BuildStep::Done(_) => panic!("expected a request"),
    };
    assert_eq!(marker_request(&step).as_deref(), Some("/proj/azure.yaml"));
}

#[test]
fn build_twice_gives_same_context() {
    let config = br#"{"defaultEnvironment": "dev"}"#;
    let files = ["/proj/azure.yaml"];
    let a = resolve(builder_at("/proj/src").build(), "/", &files, Ok(config)).unwrap();
    let b = resolve(builder_at("/proj/src").build(), "/", &files, Ok(config)).unwrap();
    assert_eq!(a.project_dir(), b.project_dir());
    assert_eq!(a.environment_name(), b.environment_name());
}

#[test]
fn context_paths() {
    let b = builder_at("/proj").environment_name("dev".to_string()).unwrap();
    let ctx = resolve(b.build(), "/", &["/proj/azure.yaml"], Err(ErrorKind::NotFound)).unwrap();
    assert_eq!(ctx.project_path(), "/proj/azure.yaml");
    assert_eq!(ctx.environment_dir(), "/proj/.azure");
    assert_eq!(ctx.environment_root(), "/proj/.azure/dev");
    assert_eq!(ctx.environment_file(), "/proj/.azure/dev/.env");
    let copy = ctx.clone();
    assert_eq!(copy.environment_file(), "/proj/.azure/dev/.env");
}

#[test]
fn join_inserts_one_separator() {
    assert_eq!(join("/a", "b"), "/a/b");
    assert_eq!(join("/a/", "b"), "/a/b");
    assert_eq!(join("", "b"), "b");
    assert_eq!(join("/a", "/b"), "/b");
}

#[test]
fn context_from_decoded_config() {
    let ctx = context_from_config("/proj".to_string(), Ok(Some("dev".to_string()))).unwrap();
    assert_eq!(ctx.project_dir(), "/proj");
    assert_eq!(ctx.environment_name(), "dev");
    let err = context_from_config("/proj".to_string(), Ok(None)).unwrap_err();
    assert_eq!(*err.kind(), ErrorKind::InvalidData);
    assert_eq!(err.message(), "'/proj/.azure/config.json' does not define `defaultEnvironment`");
    let err = context_from_config("/proj".to_string(), Err("bad json".to_string())).unwrap_err();
    assert_eq!(*err.kind(), ErrorKind::InvalidData);
    assert_eq!(err.message(), "bad json");
}
