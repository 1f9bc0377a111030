//! The files behind one sandbox of a fleet: the control socket and the two
//! files of its snapshot, each named by a template that holds the sandbox's
//! id, and the check that each is of the kind it has to be.

use crate::bench::BenchCmd;
use crate::text::{has_basename, hex2, hex2_string, names_a_file, replace_basename, replace_in_basename};
use vstd::prelude::*;

verus! {

/// What stands at a path, as far as the check needs to know.
#[derive(Clone, Copy, Debug, PartialEq, Eq, Structural)]
pub enum PathKind {
    /// Nothing that can be examined.
    Missing,
    /// A Unix domain socket.
    Socket,
    /// A regular file.
    File,
    /// Anything else.
    Other,
}

/// What stands at each of a sandbox's three paths.
#[derive(Clone, Copy, Debug, PartialEq, Eq, Structural)]
pub struct PathKinds {
    pub api_sock: PathKind,
    pub state_file: PathKind,
    pub memory_file: PathKind,
}

/// What is wrong with a path.
#[derive(Clone, Copy, Debug, PartialEq, Eq, Structural)]
pub enum Defect {
    /// The template names no file: its basename is empty or `..`.
    NoBasename,
    /// Nothing at the path can be examined.
    Unreadable,
    /// What stands at the path is of another kind.
    WrongKind,
}

/// A path that failed the check.
#[derive(Clone, Debug, PartialEq, Eq)]
pub struct ValidationError {
    /// The offending path: the template where it names no file, else the
    /// path of the sandbox.
    pub path: String,
    /// The kind that was expected at the path.
    pub expected: PathKind,
    /// What is wrong with it.
    pub defect: Defect,
}

/// The templates of a fleet's paths, and the benchmark to run once a sandbox
/// is restored. In the basename of each template, `IDh` stands for the id
/// of the sandbox as two upper-case hexadecimal digits.
#[derive(Clone, Debug, PartialEq, Eq)]
pub struct RestoreCmd {
    /// Path to the control socket of the sandbox to be restored.
    pub api_sock_path: String,
    /// Path to the state file of the snapshot to be restored.
    pub state_file: String,
    /// Path to the memory file of the snapshot to be restored.
    pub memory_file: String,
    /// The benchmark to run against the restored sandbox.
    pub bench: BenchCmd,
}

/// The paths of one sandbox.
#[derive(Clone, Debug, PartialEq, Eq)]
pub struct SandboxPaths {
    pub api_sock_path: String,
    pub state_file: String,
    pub memory_file: String,
}

/// The path that `template` gives for sandbox `id`: each `IDh` in the
/// basename becomes the id in two upper-case hexadecimal digits.
pub open spec fn sandbox_path(template: Seq<char>, id: nat) -> Seq<char> {
    replace_in_basename(template, "IDh"@, hex2(id))
}

/// What is wrong with what was found at a path, if anything.
pub open spec fn kind_defect(found: PathKind, expected: PathKind) -> Option<Defect> {
    if found is Missing {
        Some(Defect::Unreadable)
    } else if found != expected {
        Some(Defect::WrongKind)
    } else {
        None
    }
}

/// What is wrong with a template and what was found at its path, if
/// anything. A template that names no file is wrong whatever was found.
pub open spec fn template_defect(template: Seq<char>, found: PathKind, expected: PathKind) -> Option<
    Defect,
> {
    if !names_a_file(template) {
        Some(Defect::NoBasename)
    } else {
        kind_defect(found, expected)
    }
}

/// The path that an error names for a template with the given defect.
pub open spec fn offending_path(template: Seq<char>, id: nat, defect: Defect) -> Seq<char> {
    if defect is NoBasename {
        template
    } else {
        sandbox_path(template, id)
    }
}

/// The path of sandbox `id` under `template`.
pub fn render_path(template: &str, id: usize) -> (path: String)
    ensures
        path@ == sandbox_path(template@, id as nat),
{
    let hex = hex2_string(id as u128);
    replace_basename(template, "IDh", hex.as_str())
}

/// Accepts `path` where what was found there is of the expected kind.
fn check_kind(path: String, found: PathKind, expected: PathKind) -> (r: Result<
    String,
    ValidationError,
>)
    requires
        !(expected is Missing),
    ensures
        r is Ok <==> kind_defect(found, expected) is None,
        r matches Ok(p) ==> p == path,
        r matches Err(e) ==> e.path == path && e.expected == expected && Some(e.defect)
            == kind_defect(found, expected),
{
    match found {
        PathKind::Missing => Err(ValidationError { path, expected, defect: Defect::Unreadable }),
        _ => {
            if found == expected {
                Ok(path)
            } else {
                Err(ValidationError { path, expected, defect: Defect::WrongKind })
            }
        },
    }
}

/// Renders `template` for sandbox `id` and accepts the path where the
/// template names a file and what was found at the path is of the expected
/// kind.
fn check_template(template: &str, id: usize, found: PathKind, expected: PathKind) -> (r: Result<
    String,
    ValidationError,
>)
    requires
        !(expected is Missing),
    ensures
        r is Ok <==> template_defect(template@, found, expected) is None,
        r matches Ok(p) ==> p@ == sandbox_path(template@, id as nat),
        r matches Err(e) ==> e.expected == expected && Some(e.defect) == template_defect(
            template@,
            found,
            expected,
        ) && e.path@ == offending_path(template@, id as nat, e.defect),
{
    if !has_basename(template) {
        return Err(
            ValidationError { path: template.to_owned(), expected, defect: Defect::NoBasename },
        );
    }
    check_kind(render_path(template, id), found, expected)
}

impl SandboxPaths {
    /// Checks that the control socket is a socket and that the state file
    /// and the memory file are regular files, given what was found at each.
    /// The first path that fails, in that order, is the one reported.
    pub fn check(&self, found: &PathKinds) -> (r: Result<(), ValidationError>)
        ensures
            r is Ok <==> found.api_sock is Socket && found.state_file is File
                && found.memory_file is File,
            r matches Err(e) ==> {
                if !(found.api_sock is Socket) {
                    e.path@ == self.api_sock_path@ && e.expected is Socket && Some(e.defect)
                        == kind_defect(found.api_sock, PathKind::Socket)
                } else if !(found.state_file is File) {
                    e.path@ == self.state_file@ && e.expected is File && Some(e.defect)
                        == kind_defect(found.state_file, PathKind::File)
                } else {
                    e.path@ == self.memory_file@ && e.expected is File && Some(e.defect)
                        == kind_defect(found.memory_file, PathKind::File)
                }
            },
    {
        match check_kind(self.api_sock_path.clone(), found.api_sock, PathKind::Socket) {
            Err(e) => { return Err(e); },
            Ok(_) => {},
        }
        match check_kind(self.state_file.clone(), found.state_file, PathKind::File) {
            Err(e) => { return Err(e); },
            Ok(_) => {},
        }
        match check_kind(self.memory_file.clone(), found.memory_file, PathKind::File) {
            Err(e) => Err(e),
            Ok(_) => Ok(()),
        }
    }
}

impl RestoreCmd {
    /// The paths of sandbox `id`, whatever stands there.
    pub fn paths(&self, id: usize) -> (p: SandboxPaths)
        ensures
            self.renders(id as nat, p),
    {
        SandboxPaths {
            api_sock_path: render_path(self.api_sock_path.as_str(), id),
            state_file: render_path(self.state_file.as_str(), id),
            memory_file: render_path(self.memory_file.as_str(), id),
        }
    }

    /// What is wrong with the control socket of a sandbox, if anything.
    pub open spec fn socket_defect(self, found: PathKinds) -> Option<Defect> {
        template_defect(self.api_sock_path@, found.api_sock, PathKind::Socket)
    }

    /// What is wrong with the state file of a sandbox, if anything.
    pub open spec fn state_defect(self, found: PathKinds) -> Option<Defect> {
        template_defect(self.state_file@, found.state_file, PathKind::File)
    }

    /// What is wrong with the memory file of a sandbox, if anything.
    pub open spec fn memory_defect(self, found: PathKinds) -> Option<Defect> {
        template_defect(self.memory_file@, found.memory_file, PathKind::File)
    }

    /// Whether nothing is wrong with any path of a sandbox.
    pub open spec fn accepts(self, found: PathKinds) -> bool {
        self.socket_defect(found) is None && self.state_defect(found) is None
            && self.memory_defect(found) is None
    }

    /// Whether `p` holds the paths of sandbox `id`.
    pub open spec fn renders(self, id: nat, p: SandboxPaths) -> bool {
        &&& p.api_sock_path@ == sandbox_path(self.api_sock_path@, id)
        &&& p.state_file@ == sandbox_path(self.state_file@, id)
        &&& p.memory_file@ == sandbox_path(self.memory_file@, id)
    }

    /// Whether `e` reports the first path of sandbox `id` that something is
    /// wrong with: the control socket before the state file, and that before
    /// the memory file.
    pub open spec fn rejects(self, id: nat, found: PathKinds, e: ValidationError) -> bool {
        if self.socket_defect(found) is Some {
            &&& e.expected is Socket
            &&& Some(e.defect) == self.socket_defect(found)
            &&& e.path@ == offending_path(self.api_sock_path@, id, e.defect)
        } else if self.state_defect(found) is Some {
            &&& e.expected is File
            &&& Some(e.defect) == self.state_defect(found)
            &&& e.path@ == offending_path(self.state_file@, id, e.defect)
        } else {
            &&& e.expected is File
            &&& Some(e.defect) == self.memory_defect(found)
            &&& e.path@ == offending_path(self.memory_file@, id, e.defect)
        }
    }

    /// Derives the paths of sandbox `id` and checks them, given what was
    /// found at each: the control socket has to be a socket, the state file
    /// and the memory file regular files, and each template has to name a
    /// file. The first path that fails, in that order, is the one reported;
    /// the templates themselves are left as they are.
    pub fn validate(&self, id: usize, found: &PathKinds) -> (r: Result<
        SandboxPaths,
        ValidationError,
    >)
        ensures
            r is Ok <==> self.accepts(*found),
            r matches Ok(p) ==> self.renders(id as nat, p),
            r matches Err(e) ==> self.rejects(id as nat, *found, e),
    {
        let api_sock_path = match check_template(
            self.api_sock_path.as_str(),
            id,
            found.api_sock,
            PathKind::Socket,
        ) {
            Ok(p) => p,
            Err(e) => { return Err(e); },
        };
        let state_file = match check_template(
            self.state_file.as_str(),
            id,
            found.state_file,
            PathKind::File,
        ) {
            Ok(p) => p,
            Err(e) => { return Err(e); },
        };
        let memory_file = match check_template(
            self.memory_file.as_str(),
            id,
            found.memory_file,
            PathKind::File,
        ) {
            Ok(p) => p,
            Err(e) => { return Err(e); },
        };
        Ok(SandboxPaths { api_sock_path, state_file, memory_file })
    }
}

} // verus!
