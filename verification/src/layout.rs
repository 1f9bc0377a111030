//! Where the pieces of a sandbox live while its snapshot is made: its
//! address, its control socket, its logs and metrics, its root filesystem,
//! its configuration and the files of the snapshot, each derived from the
//! sandbox's id.

use crate::control::{create_snapshot_body, ControlRequest, Operation};
use crate::text::{
    decimal, decimal_string, hex2, hex2_string, join_path, joined_path, push_hex2, replace,
    replace_all, set_extension, with_extension,
};
use vstd::prelude::*;

verus! {

/// The address of a sandbox's service, with `ID` where the id goes.
pub const VM_ADDR_FMT: &'static str = "10.0.ID.2:50051";

/// The configuration of a sandbox, with a name in braces wherever a value
/// goes.
pub const MICROVM_CONFIG_TEMPLATE: &'static str = r##"{
    "boot-source": {
        "kernel_image_path": "{KERNEL_IMG_PATH}",
        "boot_args": "8250.nr_uarts=0 reboot=k panic=1 pci=off ro noapic nomodules random.trust_cpu=on transparent_hugepage=always"
    },
    "drives": [
        {
            "drive_id": "rootfs",
            "path_on_host": "{ROOTFS_PATH_ON_HOST}",
            "is_root_device": true,
            "is_read_only": true
        }
    ],
    "machine-config": {
        "mem_size_mib": {VM_MEM_MB},
        "vcpu_count": {VCPU_COUNT},
        "smt": false
    },
    "logger": {
        "log_path": "{LOG_PATH}",
        "level": "Warning",
        "show_level": true,
        "show_log_origin": true
    },
    "metrics": {
        "metrics_path": "{METRICS_PATH}"
    },
    "network-interfaces": [
        {
            "iface_id": "eth0",
            "guest_mac": "AA:FC:00:00:05:{IDh}",
            "host_dev_name": "fcpmem01.{IDh}"
        }
    ]
}"##;

/// The settings of a run that makes the snapshots of a fleet.
#[derive(Clone, Debug, PartialEq, Eq)]
pub struct Cmd {
    /// The name of the benchmark to create snapshots for.
    pub bench: String,
    /// The number of sandboxes to create snapshots for.
    pub num_uvms: u64,
    /// The guest memory size of the sandboxes, in MiB.
    pub vm_mem: u64,
    /// The number of virtual CPUs of the sandboxes.
    pub vcpu_count: u64,
    /// The directory where the snapshot files are stored.
    pub store_path: String,
    /// Whether to remove sockets, configurations, logs and metrics once
    /// the snapshots are made.
    pub cleanup: bool,
    /// The directory where the root filesystem images are stored.
    pub rootfs_dir: String,
    /// The path to the hypervisor's binary.
    pub fc_bin: String,
    /// The path to the kernel image.
    pub kernel_image_path: String,
}

/// The address of the service of sandbox `id`.
pub open spec fn vm_address(id: nat) -> Seq<char> {
    replace_all(VM_ADDR_FMT@, "ID"@, decimal(id))
}

/// The path of the control socket of sandbox `id`.
pub open spec fn socket_path(bench: Seq<char>, id: nat) -> Seq<char> {
    "/tmp/firecracker-"@ + bench + "-"@ + hex2(id) + ".socket"@
}

/// The path of the configuration file of sandbox `id`.
pub open spec fn config_path(bench: Seq<char>, id: nat) -> Seq<char> {
    "/tmp/"@ + bench + "-"@ + hex2(id) + ".json"@
}

/// The name that the hypervisor knows sandbox `id` by: the benchmark's name
/// with a hyphen for every underscore, and the id.
pub open spec fn instance_name(bench: Seq<char>, id: nat) -> Seq<char> {
    replace_all(bench, "_"@, "-"@) + "-"@ + hex2(id)
}

/// The name shared by the log and the metrics file of sandbox `id`, before
/// its extension.
pub open spec fn record_name(bench: Seq<char>, id: nat) -> Seq<char> {
    "fc-"@ + bench + "-"@ + hex2(id)
}

/// The directory of the logs.
pub open spec fn logs_dir(store: Seq<char>) -> Seq<char> {
    joined_path(store, "logs"@)
}

/// The directory of the metrics.
pub open spec fn metrics_dir(store: Seq<char>) -> Seq<char> {
    joined_path(store, "metrics"@)
}

/// The path of the log of sandbox `id`.
pub open spec fn log_path(store: Seq<char>, bench: Seq<char>, id: nat) -> Seq<char> {
    with_extension(joined_path(logs_dir(store), record_name(bench, id)), "log"@)
}

/// The path of the metrics of sandbox `id`.
pub open spec fn metrics_path(store: Seq<char>, bench: Seq<char>, id: nat) -> Seq<char> {
    with_extension(joined_path(metrics_dir(store), record_name(bench, id)), "metrics"@)
}

/// The path of the root filesystem image of sandbox `id`.
pub open spec fn rootfs_path(rootfs_dir: Seq<char>, bench: Seq<char>, id: nat) -> Seq<char> {
    joined_path(joined_path(rootfs_dir, bench), bench + "-"@ + hex2(id) + ".ext4"@)
}

/// The path of the state file of the snapshot of sandbox `id`.
pub open spec fn snapshot_path(store: Seq<char>, id: nat) -> Seq<char> {
    joined_path(store, "snapshot-"@ + hex2(id) + ".file"@)
}

/// The path of the memory file of the snapshot of sandbox `id`.
pub open spec fn memory_path(store: Seq<char>, id: nat) -> Seq<char> {
    joined_path(store, "memory-"@ + hex2(id) + ".file"@)
}

/// The configuration of a sandbox: the template with each name in braces
/// replaced by its value, one name after the other.
pub open spec fn config_text(
    kernel: Seq<char>,
    rootfs: Seq<char>,
    vm_mem: nat,
    vcpu_count: nat,
    log: Seq<char>,
    metrics: Seq<char>,
    id: nat,
) -> Seq<char> {
    let with_kernel = replace_all(MICROVM_CONFIG_TEMPLATE@, "{KERNEL_IMG_PATH}"@, kernel);
    let with_rootfs = replace_all(with_kernel, "{ROOTFS_PATH_ON_HOST}"@, rootfs);
    let with_mem = replace_all(with_rootfs, "{VM_MEM_MB}"@, decimal(vm_mem));
    let with_vcpus = replace_all(with_mem, "{VCPU_COUNT}"@, decimal(vcpu_count));
    let with_log = replace_all(with_vcpus, "{LOG_PATH}"@, log);
    let with_metrics = replace_all(with_log, "{METRICS_PATH}"@, metrics);
    replace_all(with_metrics, "{IDh}"@, hex2(id))
}

/// The arguments that the hypervisor is started with.
pub open spec fn launch_args(instance: Seq<char>, config: Seq<char>, socket: Seq<char>) -> Seq<
    Seq<char>,
> {
    seq!["--id"@, instance, "--config-file"@, config, "--api-sock"@, socket]
}

/// The configuration of one sandbox, and where it and the sandbox's records
/// go.
#[derive(Clone, Debug, PartialEq, Eq)]
pub struct RenderedConfig {
    /// The path of the configuration file.
    pub path: String,
    /// The configuration itself.
    pub text: String,
    /// The path of the log, which has to exist and be empty before the
    /// sandbox starts.
    pub log: String,
    /// The path of the metrics, which has to exist and be empty before the
    /// sandbox starts.
    pub metrics: String,
}

/// The address of the service of sandbox `id`.
pub fn address(id: u64) -> (a: String)
    ensures
        a@ == vm_address(id as nat),
{
    let number = decimal_string(id as u128);
    replace(VM_ADDR_FMT, "ID", number.as_str())
}

/// Appends `bench`, a hyphen and the id of the sandbox in two hexadecimal
/// digits to `out`.
fn push_tag(out: &mut String, bench: &str, id: u64)
    ensures
        final(out)@ == old(out)@ + bench@ + "-"@ + hex2(id as nat),
{
    out.append(bench);
    out.append("-");
    push_hex2(out, id as u128);
}

/// The path of the control socket of sandbox `id`.
pub fn socket(bench: &str, id: u64) -> (s: String)
    ensures
        s@ == socket_path(bench@, id as nat),
{
    let mut s = "/tmp/firecracker-".to_owned();
    push_tag(&mut s, bench, id);
    s.append(".socket");
    s
}

/// The path of the configuration file of sandbox `id`.
pub fn config_file(bench: &str, id: u64) -> (s: String)
    ensures
        s@ == config_path(bench@, id as nat),
{
    let mut s = "/tmp/".to_owned();
    push_tag(&mut s, bench, id);
    s.append(".json");
    s
}

/// The name that the hypervisor knows sandbox `id` by.
pub fn instance(bench: &str, id: u64) -> (s: String)
    ensures
        s@ == instance_name(bench@, id as nat),
{
    let mut s = replace(bench, "_", "-");
    s.append("-");
    push_hex2(&mut s, id as u128);
    s
}

/// The directories of the logs and of the metrics under `store`.
pub fn store_dirs(store: &str) -> (dirs: (String, String))
    ensures
        dirs.0@ == logs_dir(store@),
        dirs.1@ == metrics_dir(store@),
{
    (join_path(store, "logs"), join_path(store, "metrics"))
}

/// The paths of the log and of the metrics of sandbox `id`.
pub fn record_files(id: u64, bench: &str, store: &str) -> (files: (String, String))
    ensures
        files.0@ == log_path(store@, bench@, id as nat),
        files.1@ == metrics_path(store@, bench@, id as nat),
{
    let mut name = "fc-".to_owned();
    push_tag(&mut name, bench, id);
    let dirs = store_dirs(store);
    let log = join_path(dirs.0.as_str(), name.as_str());
    let metrics = join_path(dirs.1.as_str(), name.as_str());
    (set_extension(log.as_str(), "log"), set_extension(metrics.as_str(), "metrics"))
}

/// The path of the root filesystem image of sandbox `id`.
pub fn rootfs(rootfs_dir: &str, bench: &str, id: u64) -> (s: String)
    ensures
        s@ == rootfs_path(rootfs_dir@, bench@, id as nat),
{
    let mut image = bench.to_owned();
    image.append("-");
    push_hex2(&mut image, id as u128);
    image.append(".ext4");
    let dir = join_path(rootfs_dir, bench);
    join_path(dir.as_str(), image.as_str())
}

/// The paths of the state file and of the memory file of the snapshot of
/// sandbox `id`.
pub fn snapshot_files(store: &str, id: u64) -> (files: (String, String))
    ensures
        files.0@ == snapshot_path(store@, id as nat),
        files.1@ == memory_path(store@, id as nat),
{
    let mut state = "snapshot-".to_owned();
    push_hex2(&mut state, id as u128);
    state.append(".file");
    let mut memory = "memory-".to_owned();
    push_hex2(&mut memory, id as u128);
    memory.append(".file");
    (join_path(store, state.as_str()), join_path(store, memory.as_str()))
}

impl Cmd {
    /// The configuration of sandbox `id`, and where it and the sandbox's
    /// records go.
    pub fn render_config(&self, id: u64) -> (c: RenderedConfig)
        ensures
            c.path@ == config_path(self.bench@, id as nat),
            c.log@ == log_path(self.store_path@, self.bench@, id as nat),
            c.metrics@ == metrics_path(self.store_path@, self.bench@, id as nat),
            c.text@ == config_text(
                self.kernel_image_path@,
                rootfs_path(self.rootfs_dir@, self.bench@, id as nat),
                self.vm_mem as nat,
                self.vcpu_count as nat,
                c.log@,
                c.metrics@,
                id as nat,
            ),
    {
        let files = record_files(id, self.bench.as_str(), self.store_path.as_str());
        let rootfs = rootfs(self.rootfs_dir.as_str(), self.bench.as_str(), id);
        let mem = decimal_string(self.vm_mem as u128);
        let vcpus = decimal_string(self.vcpu_count as u128);
        let hex = hex2_string(id as u128);
        let text = replace(
            MICROVM_CONFIG_TEMPLATE,
            "{KERNEL_IMG_PATH}",
            self.kernel_image_path.as_str(),
        );
        let text = replace(text.as_str(), "{ROOTFS_PATH_ON_HOST}", rootfs.as_str());
        let text = replace(text.as_str(), "{VM_MEM_MB}", mem.as_str());
        let text = replace(text.as_str(), "{VCPU_COUNT}", vcpus.as_str());
        let text = replace(text.as_str(), "{LOG_PATH}", files.0.as_str());
        let text = replace(text.as_str(), "{METRICS_PATH}", files.1.as_str());
        let text = replace(text.as_str(), "{IDh}", hex.as_str());
        RenderedConfig {
            path: config_file(self.bench.as_str(), id),
            text,
            log: files.0,
            metrics: files.1,
        }
    }

    /// The arguments that the hypervisor is started with for sandbox `id`.
    pub fn launch(&self, id: u64) -> (args: Vec<String>)
        ensures
            args@.len() == 6,
            forall|i: int|
                0 <= i < 6 ==> (#[trigger] args@[i])@ == launch_args(
                    instance_name(self.bench@, id as nat),
                    config_path(self.bench@, id as nat),
                    socket_path(self.bench@, id as nat),
                )[i],
    {
        let mut args: Vec<String> = Vec::new();
        args.push("--id".to_owned());
        args.push(instance(self.bench.as_str(), id));
        args.push("--config-file".to_owned());
        args.push(config_file(self.bench.as_str(), id));
        args.push("--api-sock".to_owned());
        args.push(socket(self.bench.as_str(), id));
        args
    }

    /// The request that writes the snapshot of sandbox `id` to its two
    /// files under the store.
    pub fn create_snapshot(&self, id: u64) -> (r: ControlRequest)
        ensures
            r.carries(
                Operation::CreateSnapshot,
                create_snapshot_body(
                    snapshot_path(self.store_path@, id as nat),
                    memory_path(self.store_path@, id as nat),
                ),
            ),
    {
        let files = snapshot_files(self.store_path.as_str(), id);
        ControlRequest::create_snapshot(files.0.as_str(), files.1.as_str())
    }
}

} // verus!
