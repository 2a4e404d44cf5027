use steam_box::machine::{
    compute_machine_id_inner, fallback_machine_id, group_id, hardware_machine_id,
    machine_id_from_bytes, registry_machine_id, MachineSources,
};

fn is_formatted(id: &str) -> bool {
    id.len() == 35
        && id.char_indices().all(|(i, c)| {
            if i == 8 || i == 17 || i == 26 {
                c == '-'
            } else {
                c.is_ascii_hexdigit() && !c.is_ascii_uppercase()
            }
        })
}

#[test]
fn machine_id_of_abc() {
    assert_eq!(machine_id_from_bytes(b"abc"), "ba7816bf-8f01cfea-414140de-5dae2223");
    assert!(is_formatted(&machine_id_from_bytes(b"")));
}

#[test]
fn hex_and_grouping() {
    assert_eq!(
        group_id("0123456789abcdef0123456789abcdefXYZ"),
        "01234567-89abcdef-01234567-89abcdef"
    );
}

#[test]
fn fallback_hashes_known_parts_and_salt() {
    let id = fallback_machine_id(
        &Some("host".to_string()),
        &Some("/home/u".to_string()),
        &Some("/data".to_string()),
    );
    assert_eq!(id, machine_id_from_bytes(b"host/home/u/datasteam-box-salt-v1"));
    let partial = fallback_machine_id(&None, &Some("/home/u".to_string()), &None);
    assert_eq!(partial, machine_id_from_bytes(b"/home/usteam-box-salt-v1"));
    assert!(is_formatted(&partial));
}

#[test]
fn hardware_serials() {
    assert_eq!(
        hardware_machine_id(&vec![]),
        Err("No hardware serials found via WMI".to_string())
    );
    assert_eq!(
        hardware_machine_id(&vec![String::new(), String::new()]),
        Err("No hardware serials found via WMI".to_string())
    );
    assert_eq!(
        hardware_machine_id(&vec!["BOARD1".to_string(), "DISK2".to_string()]),
        Ok(machine_id_from_bytes(b"BOARD1DISK2"))
    );
    assert_eq!(registry_machine_id("HWID"), machine_id_from_bytes(b"HWID"));
}

#[test]
fn machine_id_sources_in_order() {
    let mut sources = MachineSources {
        hardware_serials: Some(vec!["S1".to_string()]),
        hardware_id: Some("HW".to_string()),
        hostname: Some("h".to_string()),
        home: None,
        data_dir: None,
    };
    assert_eq!(compute_machine_id_inner(&sources), machine_id_from_bytes(b"S1"));
    sources.hardware_serials = Some(vec![]);
    assert_eq!(compute_machine_id_inner(&sources), machine_id_from_bytes(b"HW"));
    sources.hardware_id = None;
    assert_eq!(
        compute_machine_id_inner(&sources),
        machine_id_from_bytes(b"hsteam-box-salt-v1")
    );
}
