use hilog_base::{
    HilogMsg, MessageMetaField, TagLen, HEADER_LEN, HILOG_SOCKET_PATH, INPUT_SOCKET_NAME,
    MAX_LOG_LEN, MAX_TAG_LEN, SOCKET_FILE_DIR, VERSION,
};

fn tag_len(n: usize) -> TagLen {
    TagLen::new(n).expect("tag length within bound")
}

fn msg(len: u16, meta: MessageMetaField, tv_sec: u32, tv_nsec: u32, mono_sec: u32, pid: u32, tid: u32, domain: u32) -> HilogMsg {
    HilogMsg { len, meta_bitfield: meta, tv_sec, tv_nsec, mono_sec, pid, tid, domain }
}

#[test]
fn tag_len_round_trips_every_valid_length() {
    for n in 0..=MAX_TAG_LEN {
        let t = TagLen::new(n).expect("lengths up to the maximum are accepted");
        assert_eq!(t.value(), n as u16);
    }
}

#[test]
fn tag_len_rejects_lengths_over_max() {
    for n in [MAX_TAG_LEN + 1, 63, 64, MAX_LOG_LEN, usize::MAX] {
        assert!(TagLen::new(n).is_err());
    }
}

#[test]
fn meta_field_decodes_back_to_its_inputs() {
    for log_type in 0u16..16 {
        for level in 0u16..8 {
            for tl in [0usize, 1, 10, 31, 32] {
                let m = MessageMetaField::new(log_type, level, tag_len(tl));
                assert_eq!(m.version(), VERSION);
                assert_eq!(m.log_type(), log_type);
                assert_eq!(m.level(), level);
                assert_eq!(m.tag_len(), tl as u16);
            }
        }
    }
}

#[test]
fn meta_field_known_bit_pattern() {
    let m = MessageMetaField::new(5, 3, tag_len(10));
    assert_eq!(m.value(), (5u16 << 3) | (3u16 << 7) | (10u16 << 10));
    assert_eq!(m.version(), 0);
    assert_eq!(m.log_type(), 5);
    assert_eq!(m.level(), 3);
    assert_eq!(m.tag_len(), 10);
}

#[test]
fn meta_field_scenario_packed_value() {
    let m = MessageMetaField::new(2, 4, tag_len(10));
    assert_eq!(m.value(), (2u16 << 3) | (4u16 << 7) | (10u16 << 10));
    assert_eq!(m.value(), 10768);
}

#[test]
fn header_byte_view_is_always_header_len() {
    let small = msg(0, MessageMetaField::new(0, 0, tag_len(0)), 0, 0, 0, 0, 0, 0);
    let large = msg(
        u16::MAX,
        MessageMetaField::new(15, 7, tag_len(32)),
        u32::MAX,
        u32::MAX,
        u32::MAX,
        u32::MAX,
        u32::MAX,
        u32::MAX,
    );
    assert_eq!(small.as_bytes().len(), HEADER_LEN);
    assert_eq!(large.as_bytes().len(), HEADER_LEN);
}

#[test]
fn header_serialization_is_deterministic() {
    let a = msg(100, MessageMetaField::new(3, 5, tag_len(12)), 11, 22, 33, 44, 55, 66);
    let b = msg(100, MessageMetaField::new(3, 5, tag_len(12)), 11, 22, 33, 44, 55, 66);
    assert_eq!(a.as_bytes(), b.as_bytes());
}

#[test]
fn header_single_field_changes_only_its_own_range() {
    let base = msg(100, MessageMetaField::new(3, 5, tag_len(12)), 11, 22, 33, 44, 55, 66);
    let base_bytes = base.as_bytes();

    let pid_changed = msg(100, MessageMetaField::new(3, 5, tag_len(12)), 11, 22, 33, 999, 55, 66);
    let pid_bytes = pid_changed.as_bytes();
    for i in 0..HEADER_LEN {
        if (16..20).contains(&i) {
            continue;
        }
        assert_eq!(base_bytes[i], pid_bytes[i], "byte {} outside the pid range moved", i);
    }
    assert_ne!(base_bytes[16..20], pid_bytes[16..20]);

    let len_changed = msg(101, MessageMetaField::new(3, 5, tag_len(12)), 11, 22, 33, 44, 55, 66);
    let len_bytes = len_changed.as_bytes();
    for i in 2..HEADER_LEN {
        assert_eq!(base_bytes[i], len_bytes[i], "byte {} outside the len range moved", i);
    }
    assert_ne!(base_bytes[0..2], len_bytes[0..2]);
}

#[test]
fn header_exact_byte_layout() {
    let m = msg(
        0x0201,
        MessageMetaField::new(2, 4, tag_len(10)),
        0x11223344,
        0x55667788,
        0x99AABBCC,
        0x01020304,
        0x05060708,
        0xD002D002,
    );
    // 10768 == 0x2A10: packed meta field of type 2, level 4, tag length 10.
    let expected: Vec<u8> = vec![
        0x01, 0x02, // len
        0x10, 0x2A, // meta bitfield
        0x44, 0x33, 0x22, 0x11, // tv_sec
        0x88, 0x77, 0x66, 0x55, // tv_nsec
        0xCC, 0xBB, 0xAA, 0x99, // mono_sec
        0x04, 0x03, 0x02, 0x01, // pid
        0x08, 0x07, 0x06, 0x05, // tid
        0x02, 0xD0, 0x02, 0xD0, // domain
    ];
    assert_eq!(m.as_bytes(), expected);
}

#[test]
fn socket_path_is_dir_plus_endpoint() {
    assert_eq!(HILOG_SOCKET_PATH, format!("{}{}", SOCKET_FILE_DIR, INPUT_SOCKET_NAME));
    assert_eq!(HILOG_SOCKET_PATH, "/dev/unix/socket/hilogInput");
}
