//! A fleet of sandboxes: the address of each one, derived from its id, and
//! the report of a run, one line per sandbox in the order of the ids.

use crate::bench::BenchCmd;
use crate::delay::Measurement;
use crate::sandbox::RestoreCmd;
use crate::text::{decimal, decimal_string, replace, replace_all};
use crate::worker::{Status, Worker};
use vstd::prelude::*;

verus! {

/// What a run does with each sandbox.
#[derive(Clone, Debug, PartialEq, Eq)]
pub enum TopSubcommand {
    /// Issue a cold and a warm request to a sandbox that is running.
    Issue(BenchCmd),
    /// Restore the sandbox from a snapshot first, then issue the two
    /// requests.
    Restore(RestoreCmd),
}

/// The settings of a run against a fleet.
#[derive(Clone, Debug, PartialEq, Eq)]
pub struct Cli {
    /// The address and port of a sandbox's service, with `ID` where the
    /// sandbox's id goes, in decimal.
    pub address_port_fmt: String,
    /// The number of sandboxes in the fleet.
    pub num_uvms: usize,
    /// The number of requests to issue after the cold one and before the
    /// warm one that is reported.
    pub pre_warm: usize,
    pub top_cmd: TopSubcommand,
}

/// An address that stands for no socket address.
#[derive(Clone, Debug, PartialEq, Eq)]
pub struct AddressError {
    /// The first sandbox whose address failed.
    pub id: usize,
    /// The template that the address was rendered from.
    pub template: String,
}

/// The address of sandbox `id` under `template`: each `ID` becomes the id in
/// decimal.
pub open spec fn sandbox_address(template: Seq<char>, id: nat) -> Seq<char> {
    replace_all(template, "ID"@, decimal(id))
}

/// The texts of `parts`, one after the other.
pub open spec fn joined(parts: Seq<String>) -> Seq<char>
    decreases parts.len(),
{
    if parts.len() == 0 {
        Seq::empty()
    } else {
        joined(parts.drop_last()) + parts.last()@
    }
}

/// Whether the address of sandbox `id` was resolved: an answer stands at
/// its place, and is not a failure.
pub open spec fn resolved_at(answers: Seq<Option<Vec<String>>>, id: int) -> bool {
    0 <= id < answers.len() && answers[id] is Some
}

/// The URL of the service at `address`.
pub open spec fn service_url(address: Seq<char>) -> Seq<char> {
    "http://"@ + address
}

/// The URL of the service at `address`: the address behind the scheme.
pub fn endpoint(address: &str) -> (url: String)
    ensures
        url@ == service_url(address@),
{
    let mut url = "http://".to_owned();
    url.append(address);
    url
}

/// The texts of `parts`, one after the other.
pub fn join(parts: &Vec<String>) -> (s: String)
    ensures
        s@ == joined(parts@),
{
    let mut s = String::new();
    let mut i: usize = 0;
    while i < parts.len()
        invariant
            i <= parts.len(),
            s@ == joined(parts@.take(i as int)),
        decreases parts.len() - i,
    {
        s.append(parts[i].as_str());
        assert(parts@.take(i + 1).drop_last() =~= parts@.take(i as int));
        i = i + 1;
    }
    assert(parts@.take(parts.len() as int) =~= parts@);
    s
}

/// A copy of the templates.
fn copy_of(rcmd: &RestoreCmd) -> (copy: RestoreCmd)
    ensures
        copy == *rcmd,
{
    RestoreCmd {
        api_sock_path: rcmd.api_sock_path.clone(),
        state_file: rcmd.state_file.clone(),
        memory_file: rcmd.memory_file.clone(),
        bench: rcmd.bench,
    }
}

impl Cli {
    /// Whether `worker` is the worker that this run binds to sandbox `id`,
    /// whose service is at `address`: not yet started, with nothing
    /// measured, set to call the service's URL, and to restore the sandbox
    /// first where the run asks for it.
    pub open spec fn binds(self, worker: Worker, id: int, address: Seq<char>) -> bool {
        &&& worker.wf()
        &&& worker@.status is Fresh
        &&& worker@.id == id
        &&& worker@.address == service_url(address)
        &&& worker@.pre_warm == self.pre_warm
        &&& worker@.position == 0
        &&& worker@.timer_start@ == 0
        &&& worker@.record == Measurement::blank()
        &&& match self.top_cmd {
            TopSubcommand::Issue(bench) => worker@.bench == bench && worker@.templates is None,
            TopSubcommand::Restore(rcmd) => worker@.bench == rcmd.bench && worker@.templates
                == Some(rcmd),
        }
    }

    /// The workers of the fleet, one for each address, by id.
    pub fn workers(&self, addrs: &Vec<String>) -> (fleet: Vec<Worker>)
        ensures
            fleet.len() == addrs.len(),
            forall|id: int|
                0 <= id < fleet.len() ==> self.binds(#[trigger] fleet[id], id, addrs[id]@),
    {
        let mut fleet: Vec<Worker> = Vec::new();
        let mut id: usize = 0;
        while id < addrs.len()
            invariant
                id <= addrs.len(),
                fleet.len() == id,
                forall|j: int| 0 <= j < id ==> self.binds(#[trigger] fleet[j], j, addrs[j]@),
            decreases addrs.len() - id,
        {
            let url = endpoint(addrs[id].as_str());
            let worker = match &self.top_cmd {
                TopSubcommand::Issue(bench) => Worker::issue(id, url, *bench, self.pre_warm),
                TopSubcommand::Restore(rcmd) => Worker::restore(
                    id,
                    url,
                    copy_of(rcmd),
                    self.pre_warm,
                ),
            };
            fleet.push(worker);
            id = id + 1;
        }
        fleet
    }

    /// The address of sandbox `id`, as the template gives it.
    pub fn address(&self, id: usize) -> (a: String)
        ensures
            a@ == sandbox_address(self.address_port_fmt@, id as nat),
    {
        let number = decimal_string(id as u128);
        replace(self.address_port_fmt.as_str(), "ID", number.as_str())
    }

    /// The address of every sandbox of the fleet, by id, as the template
    /// gives it; each one is still to be resolved.
    pub fn candidate_addrs(&self) -> (v: Vec<String>)
        ensures
            v.len() == self.num_uvms,
            forall|id: int|
                0 <= id < self.num_uvms ==> (#[trigger] v[id])@ == sandbox_address(
                    self.address_port_fmt@,
                    id as nat,
                ),
    {
        let mut v: Vec<String> = Vec::new();
        let mut id: usize = 0;
        while id < self.num_uvms
            invariant
                id <= self.num_uvms,
                v.len() == id,
                forall|j: int|
                    0 <= j < id ==> (#[trigger] v[j])@ == sandbox_address(
                        self.address_port_fmt@,
                        j as nat,
                    ),
            decreases self.num_uvms - id,
        {
            v.push(self.address(id));
            id = id + 1;
        }
        v
    }

    /// The addresses of the fleet's sandboxes, by id, given what each
    /// candidate address resolved to: `answers[id]` holds the socket
    /// addresses found for sandbox `id`, as text, or `None` where the
    /// candidate stands for none. The address of a sandbox is the texts of
    /// its socket addresses, one after the other. The first sandbox without
    /// an answer, or with a failure for one, fails the whole fleet.
    pub fn validate_addrs(&self, answers: &Vec<Option<Vec<String>>>) -> (r: Result<
        Vec<String>,
        AddressError,
    >)
        ensures
            r is Ok <==> forall|id: int| 0 <= id < self.num_uvms ==> resolved_at(answers@, id),
            r matches Ok(v) ==> v.len() == self.num_uvms && forall|id: int|
                0 <= id < self.num_uvms ==> (#[trigger] v[id])@ == joined(answers@[id]->0@),
            r matches Err(e) ==> {
                &&& e.id < self.num_uvms
                &&& !resolved_at(answers@, e.id as int)
                &&& forall|id: int| 0 <= id < e.id ==> resolved_at(answers@, id)
                &&& e.template@ == self.address_port_fmt@
            },
    {
        let mut v: Vec<String> = Vec::new();
        let mut id: usize = 0;
        while id < self.num_uvms
            invariant
                id <= self.num_uvms,
                v.len() == id,
                forall|j: int| 0 <= j < id ==> resolved_at(answers@, j),
                forall|j: int| 0 <= j < id ==> (#[trigger] v[j])@ == joined(answers@[j]->0@),
            decreases self.num_uvms - id,
        {
            if id >= answers.len() {
                assert(!resolved_at(answers@, id as int));
                return Err(AddressError { id, template: self.address_port_fmt.clone() });
            }
            match &answers[id] {
                Some(found) => {
                    v.push(join(found));
                },
                None => {
                    assert(!resolved_at(answers@, id as int));
                    return Err(AddressError { id, template: self.address_port_fmt.clone() });
                },
            }
            id = id + 1;
        }
        Ok(v)
    }
}

} // verus!
