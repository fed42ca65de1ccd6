use rssn_advanced::constant;
use rssn_advanced::constant::{Identifier, Value};

#[test]
fn test_get_build_date() {
    let date = constant::get_build_date();

    assert!(!date.is_empty());

    println!("Build Date: {}", date);
}

#[test]
fn test_get_commit_sha() {
    let sha = constant::get_commit_sha();

    assert!(!sha.is_empty());

    println!("Commit SHA: {}", sha);
}

#[test]
fn test_get_rustc_version() {
    let version = constant::get_rustc_version();

    assert!(!version.is_empty());

    println!("Rustc Version: {}", version);
}

#[test]
fn test_get_cargo_target_triple() {
    let triple = constant::get_cargo_target_triple();

    assert!(!triple.is_empty());

    println!("Target Triple: {}", triple);
}

#[test]
fn test_get_system_info() {
    let info = constant::get_system_info();

    assert!(!info.is_empty());

    println!("System Info: {}", info);
}

#[test]
fn test_build_strings_match_their_constants() {
    assert_eq!(constant::get_build_date(), constant::BUILD_DATE);
    assert_eq!(constant::get_commit_sha(), constant::COMMIT_SHA);
    assert_eq!(constant::get_rustc_version(), constant::RUSTC_VERSION);
    assert_eq!(constant::get_cargo_target_triple(), constant::CARGO_TARGET_TRIPLE);
    assert_eq!(constant::get_system_info(), constant::SYSTEM_INFO);
}

#[test]
fn test_build_strings_are_printable_ascii() {
    for text in [
        constant::get_build_date(),
        constant::get_commit_sha(),
        constant::get_rustc_version(),
        constant::get_cargo_target_triple(),
        constant::get_system_info(),
    ] {
        assert!(text.bytes().all(|b| (0x20..=0x7e).contains(&b)));
    }
}

#[test]
fn test_registry_lists_every_identifier_once() {
    let all = constant::identifiers();
    assert_eq!(all.len(), 55);
    for (i, a) in all.iter().enumerate() {
        for b in all.iter().skip(i + 1) {
            assert_ne!(a, b);
        }
    }
    assert_eq!(all[0], Identifier::BuildDate);
    assert_eq!(all[5], Identifier::SpeedOfLight);
    assert_eq!(all[54], Identifier::MuonMagneticMoment);
}

#[test]
fn test_registry_names_are_distinct() {
    let all = constant::identifiers();
    let names: Vec<&str> = all.iter().map(|id| constant::entry(*id).name).collect();
    for (i, a) in names.iter().enumerate() {
        assert!(!a.is_empty());
        for b in names.iter().skip(i + 1) {
            assert_ne!(a, b);
        }
    }
}

#[test]
fn test_get_returns_the_entry_value() {
    for id in constant::identifiers() {
        match (constant::get(id), constant::entry(id).value) {
            (Value::Number(a), Value::Number(b)) => assert_eq!(a, b),
            (Value::Text(a), Value::Text(b)) => assert_eq!(a, b),
            _ => panic!("get and entry disagree on the kind of value"),
        }
    }
}

#[test]
fn test_text_entries() {
    let cases = [
        (Identifier::BuildDate, "build_date", constant::BUILD_DATE),
        (Identifier::CommitSha, "commit_sha", constant::COMMIT_SHA),
        (Identifier::RustcVersion, "rustc_version", constant::RUSTC_VERSION),
        (Identifier::CargoTargetTriple, "cargo_target_triple", constant::CARGO_TARGET_TRIPLE),
        (Identifier::SystemInfo, "system_info", constant::SYSTEM_INFO),
    ];
    for (id, name, text) in cases {
        let e = constant::entry(id);
        assert_eq!(e.name, name);
        assert_eq!(e.unit, "");
        assert_eq!(e.uncertainty, "");
        assert!(!e.description.is_empty());
        match e.value {
            Value::Text(t) => assert_eq!(t, text),
            Value::Number(_) => panic!("a build string is a text"),
        }
    }
}

#[test]
fn test_speed_of_light_entry() {
    let e = constant::entry(Identifier::SpeedOfLight);
    assert_eq!(e.name, "speed_of_light");
    assert_eq!(e.unit, "m s⁻¹");
    assert_eq!(e.uncertainty, "exact");
    assert_eq!(e.description, "speed of light in vacuum");
    match e.value {
        Value::Number(bits) => {
            assert_eq!(bits, 0x41b1_de78_4a00_0000);
            assert_eq!(f64::from_bits(bits), 299_792_458.0);
        }
        Value::Text(_) => panic!("a physical constant is a number"),
    }
}

#[test]
fn test_measured_entry_metadata() {
    let e = constant::entry(Identifier::GravitationalConstant);
    assert_eq!(e.name, "gravitational_constant");
    assert_eq!(e.unit, "m³ kg⁻¹ s⁻²");
    assert_eq!(e.uncertainty, "0.00015 x 10⁻¹¹");
    assert_eq!(e.description, "Newtonian constant of gravitation");

    let e = constant::entry(Identifier::InverseFineStructureConstant);
    assert_eq!(e.description, "inverse fine-structure constant (1/α)");
    assert_eq!(e.unit, "dimensionless");
    assert_eq!(e.uncertainty, "0.000_000_021");
}
