use rssn_advanced::constant::{self, Identifier, Value};
use rssn_advanced::ffi_apis::common::{
    c_str_to_str, from_bincode_buffer, from_json_string, number_from_bincode_buffer,
    rssn_free_bincode_buffer, rssn_free_string, to_c_string, to_json_string, BincodeBuffer,
};
use rssn_advanced::ffi_apis::constant_ffi::bincode_api::{
    build_info_from_bincode_buffer, build_info_to_bincode, constant_from_bincode_buffer,
    rssn_get_build_date_bincode,
    rssn_get_build_info_bincode, rssn_get_cargo_target_triple_bincode,
    rssn_get_commit_sha_bincode, rssn_get_constant_bincode, rssn_get_rustc_version_bincode,
    rssn_get_system_info_bincode,
};
use rssn_advanced::ffi_apis::constant_ffi::handle::{
    rssn_free_string_constant, rssn_get_build_date, rssn_get_build_info,
    rssn_get_cargo_target_triple, rssn_get_commit_sha, rssn_get_rustc_version,
    rssn_get_system_info,
};
use rssn_advanced::ffi_apis::constant_ffi::json::{
    build_info_to_json, rssn_get_build_date_json, rssn_get_build_info_json,
    rssn_get_cargo_target_triple_json, rssn_get_commit_sha_json, rssn_get_rustc_version_json,
    rssn_get_system_info_json, BuildInfo,
};

fn sample_info() -> BuildInfo {
    BuildInfo {
        build_date: "2024-02-29".to_string(),
        commit_sha: "say \"hi\"\n".to_string(),
        rustc_version: String::new(),
        cargo_target_triple: "x".repeat(300),
        system_info: "Ünïcödé \\ /".to_string(),
    }
}

#[test]
fn test_handle_exports_are_the_build_strings() {
    let exports = [
        (rssn_get_build_date(), constant::get_build_date()),
        (rssn_get_commit_sha(), constant::get_commit_sha()),
        (rssn_get_rustc_version(), constant::get_rustc_version()),
        (rssn_get_cargo_target_triple(), constant::get_cargo_target_triple()),
        (rssn_get_system_info(), constant::get_system_info()),
    ];
    for (exported, text) in exports {
        let exported = exported.unwrap();
        assert_eq!(exported.as_bytes(), text.as_bytes());
        assert_eq!(c_str_to_str(Some(exported.as_bytes_with_nul())), Some(text));
        rssn_free_string_constant(Some(exported));
    }
}

#[test]
fn test_handle_export_of_the_build_date_exactly() {
    let exported = rssn_get_build_date().unwrap();
    assert_eq!(exported.as_bytes_with_nul(), b"2023-10-24\0");
}

#[test]
fn test_handle_build_info_holds_the_five_exports() {
    let info = rssn_get_build_info().unwrap();
    assert_eq!(info.build_date.as_bytes(), rssn_get_build_date().unwrap().as_bytes());
    assert_eq!(info.commit_sha.as_bytes(), rssn_get_commit_sha().unwrap().as_bytes());
    assert_eq!(info.rustc_version.as_bytes(), rssn_get_rustc_version().unwrap().as_bytes());
    assert_eq!(
        info.cargo_target_triple.as_bytes(),
        rssn_get_cargo_target_triple().unwrap().as_bytes()
    );
    assert_eq!(info.system_info.as_bytes(), rssn_get_system_info().unwrap().as_bytes());
}

#[test]
fn test_json_exports_round_trip() {
    let exports = [
        (rssn_get_build_date_json(), constant::get_build_date()),
        (rssn_get_commit_sha_json(), constant::get_commit_sha()),
        (rssn_get_rustc_version_json(), constant::get_rustc_version()),
        (rssn_get_cargo_target_triple_json(), constant::get_cargo_target_triple()),
        (rssn_get_system_info_json(), constant::get_system_info()),
    ];
    for (exported, text) in exports {
        let exported = exported.unwrap();
        assert_eq!(exported.as_bytes(), format!("\"{}\"", text).as_bytes());
        assert_eq!(from_json_string(Some(exported.as_bytes_with_nul())), Some(text.to_string()));
        rssn_free_string(Some(exported));
    }
}

#[test]
fn test_json_export_of_the_build_date_exactly() {
    let exported = rssn_get_build_date_json().unwrap();
    assert_eq!(exported.as_bytes_with_nul(), b"\"2023-10-24\"\0");
}

#[test]
fn test_json_build_info_exactly() {
    let exported = rssn_get_build_info_json().unwrap();
    assert_eq!(
        exported.as_bytes(),
        "{\"build_date\":\"2023-10-24\",\"commit_sha\":\"a1b2c3d\",\
         \"rustc_version\":\"1.70.0-nightly\",\
         \"cargo_target_triple\":\"x86_64-unknown-linux-gnu\",\
         \"system_info\":\"Linux Arch Linux\"}"
            .as_bytes()
    );
}

#[test]
fn test_json_build_info_decodes_to_the_five_exports() {
    let exported = rssn_get_build_info_json().unwrap();
    let json = c_str_to_str(Some(exported.as_bytes_with_nul())).unwrap();
    let value: serde_json::Value = serde_json::from_str(json).unwrap();
    let object = value.as_object().unwrap();
    assert_eq!(object.len(), 5);
    let singles = [
        ("build_date", rssn_get_build_date_json()),
        ("commit_sha", rssn_get_commit_sha_json()),
        ("rustc_version", rssn_get_rustc_version_json()),
        ("cargo_target_triple", rssn_get_cargo_target_triple_json()),
        ("system_info", rssn_get_system_info_json()),
    ];
    for (key, single) in singles {
        let single = single.unwrap();
        let text = from_json_string(Some(single.as_bytes_with_nul())).unwrap();
        assert_eq!(object[key].as_str(), Some(text.as_str()));
    }
}

#[test]
fn test_json_record_escapes_like_the_serializer() {
    let info = sample_info();
    let json = build_info_to_json(&info).unwrap();
    let value: serde_json::Value = serde_json::from_str(&json).unwrap();
    let object = value.as_object().unwrap();
    assert_eq!(object.len(), 5);
    assert_eq!(object["build_date"].as_str(), Some(info.build_date.as_str()));
    assert_eq!(object["commit_sha"].as_str(), Some(info.commit_sha.as_str()));
    assert_eq!(object["rustc_version"].as_str(), Some(info.rustc_version.as_str()));
    assert_eq!(object["cargo_target_triple"].as_str(), Some(info.cargo_target_triple.as_str()));
    assert_eq!(object["system_info"].as_str(), Some(info.system_info.as_str()));
    assert!(json.starts_with("{\"build_date\":\"2024-02-29\",\"commit_sha\":\"say \\\"hi\\\"\\n\","));
}

#[test]
fn test_json_record_field_order() {
    let json = build_info_to_json(&sample_info()).unwrap();
    let places: Vec<usize> = [
        "\"build_date\":",
        "\"commit_sha\":",
        "\"rustc_version\":",
        "\"cargo_target_triple\":",
        "\"system_info\":",
    ]
    .iter()
    .map(|key| json.find(key).unwrap())
    .collect();
    assert!(places.windows(2).all(|w| w[0] < w[1]));
}

#[test]
fn test_bincode_exports_round_trip() {
    let exports = [
        (rssn_get_build_date_bincode(), constant::get_build_date()),
        (rssn_get_commit_sha_bincode(), constant::get_commit_sha()),
        (rssn_get_rustc_version_bincode(), constant::get_rustc_version()),
        (rssn_get_cargo_target_triple_bincode(), constant::get_cargo_target_triple()),
        (rssn_get_system_info_bincode(), constant::get_system_info()),
    ];
    for (buffer, text) in exports {
        assert!(!buffer.is_null());
        assert_eq!(buffer.len, text.len() + 1);
        assert_eq!(buffer.as_slice()[0] as usize, text.len());
        assert_eq!(&buffer.as_slice()[1..], text.as_bytes());
        assert_eq!(from_bincode_buffer(&buffer), Some(text.to_string()));
        rssn_free_bincode_buffer(buffer);
    }
}

#[test]
fn test_bincode_export_of_the_build_date_exactly() {
    let buffer = rssn_get_build_date_bincode();
    assert_eq!(buffer.as_slice(), b"\x0a2023-10-24");
}

#[test]
fn test_bincode_build_info_is_the_five_exports_in_a_row() {
    let mut expected = Vec::new();
    expected.extend_from_slice(rssn_get_build_date_bincode().as_slice());
    expected.extend_from_slice(rssn_get_commit_sha_bincode().as_slice());
    expected.extend_from_slice(rssn_get_rustc_version_bincode().as_slice());
    expected.extend_from_slice(rssn_get_cargo_target_triple_bincode().as_slice());
    expected.extend_from_slice(rssn_get_system_info_bincode().as_slice());
    let buffer = rssn_get_build_info_bincode();
    assert_eq!(buffer.as_slice(), expected.as_slice());
    assert_eq!(buffer.len, expected.len());
}

#[test]
fn test_bincode_build_info_is_the_encoders_record() {
    let theirs = bincode_next::serde::encode_to_vec(
        (
            constant::get_build_date(),
            constant::get_commit_sha(),
            constant::get_rustc_version(),
            constant::get_cargo_target_triple(),
            constant::get_system_info(),
        ),
        bincode_next::config::standard(),
    )
    .unwrap();
    assert_eq!(rssn_get_build_info_bincode().as_slice(), theirs.as_slice());
}

#[test]
fn test_bincode_build_info_decodes_to_the_five_exports() {
    let buffer = rssn_get_build_info_bincode();
    let info = build_info_from_bincode_buffer(&buffer).unwrap();
    assert_eq!(Some(info.build_date), from_bincode_buffer(&rssn_get_build_date_bincode()));
    assert_eq!(Some(info.commit_sha), from_bincode_buffer(&rssn_get_commit_sha_bincode()));
    assert_eq!(Some(info.rustc_version), from_bincode_buffer(&rssn_get_rustc_version_bincode()));
    assert_eq!(
        Some(info.cargo_target_triple),
        from_bincode_buffer(&rssn_get_cargo_target_triple_bincode())
    );
    assert_eq!(Some(info.system_info), from_bincode_buffer(&rssn_get_system_info_bincode()));

    let (theirs, read) = bincode_next::serde::decode_from_slice::<
        (String, String, String, String, String),
        _,
    >(buffer.as_slice(), bincode_next::config::standard())
    .unwrap();
    assert_eq!(read, buffer.len);
    assert_eq!(theirs.0, constant::get_build_date());
    assert_eq!(theirs.4, constant::get_system_info());
}

#[test]
fn test_bincode_record_round_trip_with_long_and_odd_fields() {
    let mut info = sample_info();
    info.system_info = "é".repeat(40_000);
    let bytes = build_info_to_bincode(&info).unwrap();
    let theirs = bincode_next::serde::encode_to_vec(
        (
            info.build_date.as_str(),
            info.commit_sha.as_str(),
            info.rustc_version.as_str(),
            info.cargo_target_triple.as_str(),
            info.system_info.as_str(),
        ),
        bincode_next::config::standard(),
    )
    .unwrap();
    assert_eq!(bytes, theirs);
    assert_eq!(&bytes[..11], b"\x0a2024-02-29");
    assert_eq!(&bytes[11..21], b"\x09say \"hi\"\n");
    assert_eq!(bytes[21], 0);
    assert_eq!(&bytes[22..25], &[251, 44, 1]);
    assert_eq!(&bytes[325..330], &[252, 0x80, 0x38, 0x01, 0x00]);
    assert_eq!(bytes.len(), 330 + 80_000);

    let buffer = BincodeBuffer::from_vec(bytes);
    let back = build_info_from_bincode_buffer(&buffer).unwrap();
    assert_eq!(back.build_date, info.build_date);
    assert_eq!(back.commit_sha, info.commit_sha);
    assert_eq!(back.rustc_version, info.rustc_version);
    assert_eq!(back.cargo_target_triple, info.cargo_target_triple);
    assert_eq!(back.system_info, info.system_info);
}

#[test]
fn test_bincode_record_malformed_is_absent() {
    assert!(build_info_from_bincode_buffer(&BincodeBuffer::empty()).is_none());
    let mut bytes = rssn_get_build_info_bincode().as_slice().to_vec();
    bytes.pop();
    assert!(build_info_from_bincode_buffer(&BincodeBuffer::from_vec(bytes)).is_none());
    assert!(build_info_from_bincode_buffer(&BincodeBuffer::from_vec(vec![0, 0, 0, 0])).is_none());
    assert!(build_info_from_bincode_buffer(&BincodeBuffer::from_vec(vec![0, 0, 0, 0, 9])).is_none());
    let five_empty = build_info_from_bincode_buffer(&BincodeBuffer::from_vec(vec![0, 0, 0, 0, 0]));
    assert_eq!(five_empty.unwrap().system_info, "");
}

#[test]
fn test_every_constant_on_the_binary_channel() {
    for id in constant::identifiers() {
        let buffer = rssn_get_constant_bincode(id);
        assert!(!buffer.is_null());
        match constant::get(id) {
            Value::Number(bits) => {
                let theirs = bincode_next::serde::encode_to_vec(
                    f64::from_bits(bits),
                    bincode_next::config::standard(),
                )
                .unwrap();
                assert_eq!(buffer.as_slice(), theirs.as_slice());
                assert_eq!(number_from_bincode_buffer(&buffer), Some(bits));
            }
            Value::Text(text) => {
                let theirs = bincode_next::serde::encode_to_vec(
                    text.as_str(),
                    bincode_next::config::standard(),
                )
                .unwrap();
                assert_eq!(buffer.as_slice(), theirs.as_slice());
                assert_eq!(from_bincode_buffer(&buffer), Some(text));
            }
        }
    }
}

#[test]
fn test_speed_of_light_as_text_round_trips_exactly() {
    let bits = match constant::get(Identifier::SpeedOfLight) {
        Value::Number(bits) => bits,
        Value::Text(_) => panic!("a physical constant is a number"),
    };
    let value = f64::from_bits(bits);

    let handle = to_c_string(value.to_string()).unwrap();
    assert_eq!(handle.as_bytes(), b"299792458");
    let text = c_str_to_str(Some(handle.as_bytes_with_nul())).unwrap();
    assert_eq!(text.parse::<f64>().unwrap().to_bits(), bits);

    let json = to_json_string(serde_json::to_string(&value)).unwrap();
    let text = c_str_to_str(Some(json.as_bytes_with_nul())).unwrap();
    let back: f64 = serde_json::from_str(text).unwrap();
    assert_eq!(back, 299_792_458.0);
    assert_eq!(back.to_bits(), bits);
}

#[test]
fn test_every_number_as_decimal_text_round_trips_exactly() {
    for id in constant::identifiers() {
        if let Value::Number(bits) = constant::get(id) {
            let exported = to_c_string(f64::from_bits(bits).to_string()).unwrap();
            let text = c_str_to_str(Some(exported.as_bytes_with_nul())).unwrap();
            assert_eq!(text.parse::<f64>().unwrap().to_bits(), bits);
        }
    }
}

#[test]
fn test_exports_are_independent_of_each_other() {
    let first = rssn_get_build_date_json().unwrap();
    let second = rssn_get_build_date_json().unwrap();
    assert_eq!(first.as_bytes(), second.as_bytes());
    rssn_free_string(Some(first));
    assert_eq!(second.as_bytes(), b"\"2023-10-24\"");

    let a = rssn_get_constant_bincode(Identifier::PlanckConstant);
    let b = rssn_get_constant_bincode(Identifier::PlanckConstant);
    rssn_free_bincode_buffer(a);
    assert_eq!(number_from_bincode_buffer(&b), Some(6.626_070_15e-34f64.to_bits()));
}

#[test]
fn test_json_record_is_the_serializers_struct() {
    use_serializer_on(&sample_info());
    use_serializer_on(&BuildInfo {
        build_date: constant::get_build_date().to_string(),
        commit_sha: constant::get_commit_sha().to_string(),
        rustc_version: constant::get_rustc_version().to_string(),
        cargo_target_triple: constant::get_cargo_target_triple().to_string(),
        system_info: constant::get_system_info().to_string(),
    });
}

fn use_serializer_on(info: &BuildInfo) {
    let mut theirs = Vec::new();
    let mut serializer = serde_json::Serializer::new(&mut theirs);
    let mut record =
        serde::ser::Serializer::serialize_struct(&mut serializer, "BuildInfo", 5).unwrap();
    serde::ser::SerializeStruct::serialize_field(&mut record, "build_date", &info.build_date)
        .unwrap();
    serde::ser::SerializeStruct::serialize_field(&mut record, "commit_sha", &info.commit_sha)
        .unwrap();
    serde::ser::SerializeStruct::serialize_field(
        &mut record,
        "rustc_version",
        &info.rustc_version,
    )
    .unwrap();
    serde::ser::SerializeStruct::serialize_field(
        &mut record,
        "cargo_target_triple",
        &info.cargo_target_triple,
    )
    .unwrap();
    serde::ser::SerializeStruct::serialize_field(&mut record, "system_info", &info.system_info)
        .unwrap();
    serde::ser::SerializeStruct::end(record).unwrap();
    assert_eq!(build_info_to_json(info).unwrap().into_bytes(), theirs);
}

#[test]
fn test_every_number_as_json_round_trips_exactly() {
    for id in constant::identifiers() {
        if let Value::Number(bits) = constant::get(id) {
            let exported = to_json_string(serde_json::to_string(&f64::from_bits(bits))).unwrap();
            let text = c_str_to_str(Some(exported.as_bytes_with_nul())).unwrap();
            let back: f64 = serde_json::from_str(text).unwrap();
            assert_eq!(back.to_bits(), bits);
        }
    }
}

#[test]
fn test_binary_round_trip_of_every_identifier() {
    for id in constant::identifiers() {
        let buffer = rssn_get_constant_bincode(id);
        match (constant_from_bincode_buffer(id, &buffer), constant::get(id)) {
            (Some(Value::Number(back)), Value::Number(bits)) => assert_eq!(back, bits),
            (Some(Value::Text(back)), Value::Text(text)) => assert_eq!(back, text),
            _ => panic!("the value read back is not of the kind that was exported"),
        }
    }
}

#[test]
fn test_constant_from_bincode_buffer_reads_the_kind_the_identifier_names() {
    let text = BincodeBuffer::from_vec(vec![2, b'h', b'i']);
    match constant_from_bincode_buffer(Identifier::CommitSha, &text) {
        Some(Value::Text(t)) => assert_eq!(t, "hi"),
        _ => panic!("a text was expected"),
    }
    assert!(constant_from_bincode_buffer(Identifier::SpeedOfLight, &text).is_none());

    let number = BincodeBuffer::from_vec(vec![1, 0, 0, 0, 0, 0, 0, 0]);
    match constant_from_bincode_buffer(Identifier::SpeedOfLight, &number) {
        Some(Value::Number(bits)) => assert_eq!(bits, 1),
        _ => panic!("a number was expected"),
    }
    match constant_from_bincode_buffer(Identifier::BuildDate, &number) {
        Some(Value::Text(t)) => assert_eq!(t, "\0"),
        _ => panic!("a text of one character was expected"),
    }
    assert!(constant_from_bincode_buffer(Identifier::BuildDate, &BincodeBuffer::empty()).is_none());
    assert!(
        constant_from_bincode_buffer(Identifier::SpeedOfLight, &BincodeBuffer::empty()).is_none()
    );
}
