use fbpml::control::Method;
use fbpml::layout::{
    address, config_file, instance, record_files, rootfs, snapshot_files, socket, store_dirs, Cmd,
    MICROVM_CONFIG_TEMPLATE, VM_ADDR_FMT,
};

fn cmd() -> Cmd {
    Cmd {
        bench: String::from("lr_serving"),
        num_uvms: 16,
        vm_mem: 512,
        vcpu_count: 2,
        store_path: String::from("/store"),
        cleanup: true,
        rootfs_dir: String::from("/images"),
        fc_bin: String::from("/usr/bin/firecracker"),
        kernel_image_path: String::from("/boot/vmlinux"),
    }
}

#[test]
fn address_of_a_sandbox() {
    assert_eq!(VM_ADDR_FMT, "10.0.ID.2:50051");
    assert_eq!(address(0), "10.0.0.2:50051");
    assert_eq!(address(10), "10.0.10.2:50051");
    assert_eq!(address(255), "10.0.255.2:50051");
}

#[test]
fn names_hold_the_benchmark_and_the_hex_id() {
    assert_eq!(socket("lr_serving", 10), "/tmp/firecracker-lr_serving-0A.socket");
    assert_eq!(config_file("lr_serving", 10), "/tmp/lr_serving-0A.json");
    assert_eq!(instance("lr_serving", 10), "lr-serving-0A");
    assert_eq!(instance("a_b_c", 255), "a-b-c-FF");
    assert_eq!(rootfs("/images", "lr_serving", 10), "/images/lr_serving/lr_serving-0A.ext4");
    assert_eq!(
        snapshot_files("/store", 10),
        (String::from("/store/snapshot-0A.file"), String::from("/store/memory-0A.file"))
    );
}

#[test]
fn records_live_under_the_store() {
    assert_eq!(store_dirs("/store"), (String::from("/store/logs"), String::from("/store/metrics")));
    assert_eq!(
        record_files(10, "lr_serving", "/store"),
        (
            String::from("/store/logs/fc-lr_serving-0A.log"),
            String::from("/store/metrics/fc-lr_serving-0A.metrics")
        )
    );
    assert_eq!(
        record_files(1, "v1.2", "/store/"),
        (String::from("/store/logs/fc-v1.log"), String::from("/store/metrics/fc-v1.metrics"))
    );
}

#[test]
fn configuration_has_every_name_replaced() {
    let c = cmd().render_config(10);
    assert_eq!(c.path, "/tmp/lr_serving-0A.json");
    assert_eq!(c.log, "/store/logs/fc-lr_serving-0A.log");
    assert_eq!(c.metrics, "/store/metrics/fc-lr_serving-0A.metrics");
    let expected = MICROVM_CONFIG_TEMPLATE
        .replace("{KERNEL_IMG_PATH}", "/boot/vmlinux")
        .replace("{ROOTFS_PATH_ON_HOST}", "/images/lr_serving/lr_serving-0A.ext4")
        .replace("{VM_MEM_MB}", "512")
        .replace("{VCPU_COUNT}", "2")
        .replace("{LOG_PATH}", "/store/logs/fc-lr_serving-0A.log")
        .replace("{METRICS_PATH}", "/store/metrics/fc-lr_serving-0A.metrics")
        .replace("{IDh}", "0A");
    assert_eq!(c.text, expected);
    assert!(c.text.contains("\"kernel_image_path\": \"/boot/vmlinux\","));
    assert!(c.text.contains("\"path_on_host\": \"/images/lr_serving/lr_serving-0A.ext4\","));
    assert!(c.text.contains("\"mem_size_mib\": 512,"));
    assert!(c.text.contains("\"vcpu_count\": 2,"));
    assert!(c.text.contains("\"log_path\": \"/store/logs/fc-lr_serving-0A.log\","));
    assert!(c.text.contains("\"metrics_path\": \"/store/metrics/fc-lr_serving-0A.metrics\""));
    assert!(c.text.contains("\"guest_mac\": \"AA:FC:00:00:05:0A\","));
    assert!(c.text.contains("\"host_dev_name\": \"fcpmem01.0A\""));
    assert!(!c.text.contains("{IDh}"));
}

#[test]
fn names_in_values_are_replaced_in_their_turn() {
    let c = Cmd { kernel_image_path: String::from("/boot/{IDh}/vmlinux"), ..cmd() }.render_config(3);
    assert!(c.text.contains("\"kernel_image_path\": \"/boot/03/vmlinux\","));
}

#[test]
fn hypervisor_is_started_with_id_configuration_and_socket() {
    assert_eq!(
        cmd().launch(10),
        vec![
            "--id",
            "lr-serving-0A",
            "--config-file",
            "/tmp/lr_serving-0A.json",
            "--api-sock",
            "/tmp/firecracker-lr_serving-0A.socket"
        ]
    );
}

#[test]
fn snapshot_goes_to_the_store() {
    let r = cmd().create_snapshot(10);
    assert_eq!(r.method, Method::Put);
    assert_eq!(r.path, "/snapshot/create");
    assert_eq!(
        r.body,
        r#"{"snapshot_path":"/store/snapshot-0A.file","mem_file_path":"/store/memory-0A.file","snapshot_type":"Full"}"#
    );
}
