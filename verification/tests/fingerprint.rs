use secure_notes::fingerprint::{
    changed_components, generate_hardware_salt, generate_stable_hardware_fingerprint,
    is_critical_hardware_change, push_drift_notes, sort_strings, HardwareEnvironment,
};
use std::collections::hash_map::DefaultHasher;
use std::hash::{Hash, Hasher};

fn strings(items: &[&str]) -> Vec<String> {
    items.iter().map(|s| s.to_string()).collect()
}

fn bare_env() -> HardwareEnvironment {
    HardwareEnvironment {
        user: None,
        username: None,
        home: None,
        userprofile: None,
        os: "linux".to_string(),
        arch: "x86_64".to_string(),
        computername: None,
        hostname: None,
        name: None,
    }
}

fn std_hash(text: &str) -> u64 {
    let mut hasher = DefaultHasher::new();
    text.hash(&mut hasher);
    hasher.finish()
}

#[test]
fn fingerprint_sorts_and_hashes_components() {
    let env = HardwareEnvironment {
        user: Some("alice".to_string()),
        username: Some("ignored".to_string()),
        home: Some("/home/alice".to_string()),
        userprofile: None,
        os: "linux".to_string(),
        arch: "x86_64".to_string(),
        computername: None,
        hostname: Some("workstation".to_string()),
        name: Some("ignored".to_string()),
    };
    let (hash, components) = generate_stable_hardware_fingerprint(&env);
    assert_eq!(
        components,
        strings(&[
            "arch:x86_64",
            "computer:workstation",
            "home:/home/alice",
            "os:linux",
            "user:alice",
        ])
    );
    assert_eq!(
        hash,
        std_hash("arch:x86_64||computer:workstation||home:/home/alice||os:linux||user:alice")
    );
    assert_ne!(hash, std_hash("arch:x86_64"));
}

#[test]
fn fingerprint_falls_back_when_readings_are_missing() {
    let (hash, components) = generate_stable_hardware_fingerprint(&bare_env());
    assert_eq!(
        components,
        strings(&[
            "arch:x86_64",
            "computer:unknown_computer",
            "home:unknown",
            "os:linux",
            "user:unknown_user",
        ])
    );
    assert_eq!(
        hash,
        std_hash("arch:x86_64||computer:unknown_computer||home:unknown||os:linux||user:unknown_user")
    );
}

#[test]
fn fingerprint_uses_second_choices() {
    let mut env = bare_env();
    env.username = Some("bob".to_string());
    env.userprofile = Some("C:\\Users\\bob".to_string());
    env.name = Some("third".to_string());
    let (_, components) = generate_stable_hardware_fingerprint(&env);
    assert!(components.contains(&"user:bob".to_string()));
    assert!(components.contains(&"home:C:\\Users\\bob".to_string()));
    assert!(components.contains(&"computer:third".to_string()));
    env.hostname = Some("second".to_string());
    let (_, components) = generate_stable_hardware_fingerprint(&env);
    assert!(components.contains(&"computer:second".to_string()));
    env.computername = Some("first".to_string());
    let (_, components) = generate_stable_hardware_fingerprint(&env);
    assert!(components.contains(&"computer:first".to_string()));
}

#[test]
fn fingerprint_is_deterministic() {
    let first = generate_stable_hardware_fingerprint(&bare_env());
    let second = generate_stable_hardware_fingerprint(&bare_env());
    assert_eq!(first, second);
}

#[test]
fn sort_strings_matches_std_sort() {
    let items = strings(&["os:linux", "user:é", "arch:arm", "user:z", "", "home:/a", "arch:arm"]);
    let mut expected = items.clone();
    expected.sort();
    assert_eq!(sort_strings(&items), expected);
    assert_eq!(sort_strings(&Vec::new()), Vec::<String>::new());
}

#[test]
fn critical_change_looks_at_user_os_and_arch_only() {
    let stored = strings(&["arch:x86_64", "computer:a", "home:/home/a", "os:linux", "user:a"]);
    let renamed = strings(&["arch:x86_64", "computer:b", "home:/srv/a", "os:linux", "user:a"]);
    assert!(!is_critical_hardware_change(&stored, &stored));
    assert!(!is_critical_hardware_change(&stored, &renamed));
    let other_user = strings(&["arch:x86_64", "computer:a", "home:/home/a", "os:linux", "user:b"]);
    let other_os = strings(&["arch:x86_64", "computer:a", "home:/home/a", "os:macos", "user:a"]);
    let other_arch = strings(&["arch:aarch64", "computer:a", "home:/home/a", "os:linux", "user:a"]);
    assert!(is_critical_hardware_change(&stored, &other_user));
    assert!(is_critical_hardware_change(&stored, &other_os));
    assert!(is_critical_hardware_change(&stored, &other_arch));
    assert!(is_critical_hardware_change(&stored, &strings(&["computer:a"])));
    assert!(!is_critical_hardware_change(&strings(&["home:x"]), &strings(&["computer:a"])));
}

#[test]
fn changed_components_names_each_difference() {
    let stored = strings(&["arch:x86_64", "computer:a", "home:/home/a", "os:linux", "user:a"]);
    let current = strings(&["arch:x86_64", "computer:b", "home:/home/a", "os:linux", "user:c"]);
    assert_eq!(
        changed_components(&stored, &current),
        strings(&[
            "Component 1: 'computer:a' -> 'computer:b'",
            "Component 4: 'user:a' -> 'user:c'",
        ])
    );
    assert!(changed_components(&stored, &stored).is_empty());
    assert!(changed_components(&stored, &strings(&["arch:x86_64"])).is_empty());
    assert_eq!(
        changed_components(&strings(&["a", "b", "c"]), &strings(&["x"])),
        strings(&["Component 0: 'a' -> 'x'"])
    );
}

#[test]
fn drift_notes_are_appended() {
    let stored = strings(&["arch:x86_64", "computer:a", "user:a"]);
    let current = strings(&["arch:x86_64", "computer:b", "user:a"]);
    let mut out = strings(&["head"]);
    push_drift_notes(&mut out, &stored, &current);
    assert_eq!(out, strings(&["head", "Changed: computer:a -> computer:b"]));
}

#[test]
fn salt_follows_the_mixing_rule() {
    for hash in [0u64, 1, 0x0123_4567_89ab_cdef, u64::MAX, 0xdead_beef_0000_ffff] {
        let salt = generate_hardware_salt(hash);
        let bytes = hash.to_le_bytes();
        let mut expected = Vec::new();
        for i in 0..32usize {
            expected.push(bytes[i % 8] ^ (i as u8).wrapping_mul(17) ^ 0xAA);
        }
        assert_eq!(salt, expected);
    }
    let salt = generate_hardware_salt(0x0123_4567_89ab_cdef);
    assert_eq!(salt.len(), 32);
    assert_eq!(salt[0], 0xef ^ 0xAA);
    assert_eq!(salt[1], 0xcd ^ 17 ^ 0xAA);
    assert_eq!(salt[31], 0x01 ^ 15 ^ 0xAA);
}
