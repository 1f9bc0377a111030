use fbpml::sandbox::{
    render_path, Defect, PathKind, PathKinds, RestoreCmd, SandboxPaths, ValidationError,
};
use fbpml::BenchCmd;

fn templates() -> RestoreCmd {
    RestoreCmd {
        api_sock_path: String::from("/tmp/firecracker-hello-IDh.socket"),
        state_file: String::from("/store/IDh/snapshot-IDh.file"),
        memory_file: String::from("memory-IDh.file"),
        bench: BenchCmd::HelloWorld,
    }
}

fn all_good() -> PathKinds {
    PathKinds { api_sock: PathKind::Socket, state_file: PathKind::File, memory_file: PathKind::File }
}

#[test]
fn placeholder_becomes_two_hex_digits_in_the_basename() {
    assert_eq!(render_path("firecracker-{bench}-IDh.socket", 10), "firecracker-{bench}-0A.socket");
    assert_eq!(render_path("/tmp/IDh/fc-IDh.sock", 0), "/tmp/IDh/fc-00.sock");
    assert_eq!(render_path("/tmp/fc-IDh.sock", 255), "/tmp/fc-FF.sock");
    assert_eq!(render_path("/tmp/fc-IDh.sock", 256), "/tmp/fc-100.sock");
    assert_eq!(render_path("/tmp/fc.sock", 3), "/tmp/fc.sock");
}

#[test]
fn valid_paths_are_rendered_for_the_sandbox() {
    let paths = templates().validate(10, &all_good()).unwrap();
    assert_eq!(paths.api_sock_path, "/tmp/firecracker-hello-0A.socket");
    assert_eq!(paths.state_file, "/store/IDh/snapshot-0A.file");
    assert_eq!(paths.memory_file, "memory-0A.file");
    assert_eq!(templates().paths(10), paths);
}

#[test]
fn socket_must_be_a_socket() {
    for found in [PathKind::File, PathKind::Other] {
        let kinds = PathKinds { api_sock: found, ..all_good() };
        assert_eq!(
            templates().validate(1, &kinds),
            Err(ValidationError {
                path: String::from("/tmp/firecracker-hello-01.socket"),
                expected: PathKind::Socket,
                defect: Defect::WrongKind,
            })
        );
    }
}

#[test]
fn missing_socket_is_unreadable() {
    let kinds = PathKinds { api_sock: PathKind::Missing, ..all_good() };
    assert_eq!(
        templates().validate(1, &kinds),
        Err(ValidationError {
            path: String::from("/tmp/firecracker-hello-01.socket"),
            expected: PathKind::Socket,
            defect: Defect::Unreadable,
        })
    );
}

#[test]
fn snapshot_files_must_be_regular_files() {
    let kinds = PathKinds { state_file: PathKind::Socket, ..all_good() };
    assert_eq!(
        templates().validate(2, &kinds),
        Err(ValidationError {
            path: String::from("/store/IDh/snapshot-02.file"),
            expected: PathKind::File,
            defect: Defect::WrongKind,
        })
    );
    let kinds = PathKinds { memory_file: PathKind::Missing, ..all_good() };
    assert_eq!(
        templates().validate(2, &kinds),
        Err(ValidationError {
            path: String::from("memory-02.file"),
            expected: PathKind::File,
            defect: Defect::Unreadable,
        })
    );
}

#[test]
fn first_offending_path_is_reported() {
    let kinds = PathKinds {
        api_sock: PathKind::Other,
        state_file: PathKind::Missing,
        memory_file: PathKind::Socket,
    };
    let e = templates().validate(0, &kinds).unwrap_err();
    assert_eq!(e.path, "/tmp/firecracker-hello-00.socket");
    let kinds = PathKinds { api_sock: PathKind::Socket, ..kinds };
    let e = templates().validate(0, &kinds).unwrap_err();
    assert_eq!(e.path, "/store/IDh/snapshot-00.file");
    assert_eq!(e.defect, Defect::Unreadable);
}

#[test]
fn template_without_basename_is_rejected_whatever_was_found() {
    let rcmd = RestoreCmd { state_file: String::from("/store/"), ..templates() };
    assert_eq!(
        rcmd.validate(4, &all_good()),
        Err(ValidationError {
            path: String::from("/store/"),
            expected: PathKind::File,
            defect: Defect::NoBasename,
        })
    );
    let rcmd = RestoreCmd { api_sock_path: String::from("/tmp/.."), ..templates() };
    let e = rcmd.validate(4, &all_good()).unwrap_err();
    assert_eq!(e.defect, Defect::NoBasename);
    assert_eq!(e.expected, PathKind::Socket);
    assert_eq!(e.path, "/tmp/..");
}

#[test]
fn paths_given_as_they_are_can_be_checked_too() {
    let paths = SandboxPaths {
        api_sock_path: String::from("/tmp/fc.sock"),
        state_file: String::from("/store/state"),
        memory_file: String::from("/store/mem"),
    };
    assert_eq!(paths.check(&all_good()), Ok(()));
    let kinds = PathKinds { memory_file: PathKind::Other, ..all_good() };
    assert_eq!(
        paths.check(&kinds),
        Err(ValidationError {
            path: String::from("/store/mem"),
            expected: PathKind::File,
            defect: Defect::WrongKind,
        })
    );
    let kinds = PathKinds { api_sock: PathKind::Missing, state_file: PathKind::Missing, ..all_good() };
    let e = paths.check(&kinds).unwrap_err();
    assert_eq!(e.path, "/tmp/fc.sock");
    assert_eq!(e.defect, Defect::Unreadable);
    assert_eq!(e.expected, PathKind::Socket);
}
