use dotazure::{load, loader, AzdContext, BuildStep, Error, ErrorKind, LoadStep, Reply, Request};

fn context_at(dir: &str, name: &str) -> AzdContext {
    let b = AzdContext::builder()
        .current_dir(dir.to_string(), true)
        .unwrap()
        .environment_name(name.to_string())
        .unwrap();
    match b.build() {
        BuildStep::Pending(r, _) => match r.resume(Reply::MarkerExists(true)) {
            BuildStep::Done(Ok(c)) => c,
            _ => panic!("expected a context"),
        },
        BuildStep::Done(_) => panic!("expected a request"),
    }
}

/// Answers a load; `applied` is the outcome of applying a variable file.
fn finish(mut step: LoadStep, cwd: &str, files: &[&str], applied: Result<(), ErrorKind>) -> (Result<bool, Error>, Vec<(String, bool)>) {
    let mut loads = Vec::new();
    for _ in 0..64 {
        step = match step {
            LoadStep::Done(r) => return (r, loads),
            LoadStep::Pending(loading, request) => {
                let reply = match request {
                    Request::CurrentDir => Reply::CurrentDir(Ok(cwd.to_string())),
                    Request::MarkerExists(p) => Reply::MarkerExists(files.contains(&p.as_str())),
                    Request::ReadConfig(_) => Reply::ReadConfig(Ok(br#"{"defaultEnvironment": "dev"}"#.to_vec())),
                    Request::LoadEnvFile(p, replace) => {
                        loads.push((p, replace));
                        Reply::LoadEnvFile(applied.map_err(|k| Error::new(k, "apply".to_string())))
                    }
                };
                loading.resume(reply)
            }
        };
    }
    panic!("load did not finish");
}

#[test]
fn load_without_project_is_not_loaded() {
    let (r, loads) = finish(load(), "/x/y", &[], Ok(()));
    assert!(!r.unwrap());
    assert!(loads.is_empty());
}

#[test]
fn load_resolves_and_applies_without_replace() {
    let (r, loads) = finish(load(), "/proj/src", &["/proj/azure.yaml"], Ok(()));
    assert!(r.unwrap());
    assert_eq!(loads, vec![("/proj/.azure/dev/.env".to_string(), false)]);
}

#[test]
fn load_with_replace_passes_flag() {
    let ctx = context_at("/proj", "dev");
    let (r, loads) = finish(loader().context(ctx).replace(true).load(), "/", &[], Ok(()));
    assert!(r.unwrap());
    assert_eq!(loads, vec![("/proj/.azure/dev/.env".to_string(), true)]);
}

#[test]
fn missing_env_file_is_not_loaded() {
    let ctx = context_at("/proj", "dev");
    let (r, _) = finish(loader().context(ctx).load(), "/", &[], Err(ErrorKind::NotFound));
    assert!(!r.unwrap());
}

#[test]
fn other_apply_failure_is_error() {
    let ctx = context_at("/proj", "dev");
    let (r, _) = finish(loader().context(ctx).load(), "/", &[], Err(ErrorKind::Io));
    assert_eq!(*r.unwrap_err().kind(), ErrorKind::Io);
}

#[test]
fn invalid_config_during_load_is_error() {
    let step = load();
    let step = match step {
        LoadStep::Pending(l, _) => l.resume(Reply::CurrentDir(Ok("/proj".to_string()))),
        LoadStep::Done(_) => panic!("expected a request"),
    };
    let step = match step {
        LoadStep::Pending(l, _) => l.resume(Reply::MarkerExists(true)),
        LoadStep::Done(_) => panic!("expected a request"),
    };
    let step = match step {
        LoadStep::Pending(l, Request::ReadConfig(_)) => l.resume(Reply::ReadConfig(Ok(b"{}".to_vec()))),
        _ => panic!("expected the stored config to be read"),
    };
    match step {
        LoadStep::Done(Err(e)) => assert_eq!(*e.kind(), ErrorKind::InvalidData),
        _ => panic!("expected an error"),
    }
}

#[test]
fn missing_config_during_load_is_not_loaded() {
    let step = load();
    let step = match step {
        LoadStep::Pending(l, _) => l.resume(Reply::CurrentDir(Ok("/proj".to_string()))),
        LoadStep::Done(_) => panic!("expected a request"),
    };
    let step = match step {
        LoadStep::Pending(l, _) => l.resume(Reply::MarkerExists(true)),
        LoadStep::Done(_) => panic!("expected a request"),
    };
    let step = match step {
        LoadStep::Pending(l, _) => l.resume(Reply::ReadConfig(Err(Error::new(ErrorKind::NotFound, "missing".to_string())))),
        LoadStep::Done(_) => panic!("expected a request"),
    };
    assert!(matches!(step, LoadStep::Done(Ok(false))));
}
