use sane_scan::options::{
    SANE_ACTION_GET_VALUE, SANE_ACTION_SET_VALUE, SANE_TYPE_BOOL, SANE_TYPE_FIXED, SANE_TYPE_INT,
    SANE_TYPE_STRING,
};
use sane_scan::status::{SANE_STATUS_GOOD, SANE_STATUS_INVAL, SANE_STATUS_IO_ERROR};
use sane_scan::{until_nul, Constraint, Descriptor, Error, Info, Opt, Payload, Range};

fn descriptor(name: &str, type_: u32, size: i32, constraint: Constraint) -> Descriptor {
    Descriptor {
        name: name.to_string(),
        desc: format!("about {}", name),
        type_,
        size,
        constraint,
    }
}

fn mode() -> Descriptor {
    descriptor(
        "mode",
        SANE_TYPE_STRING,
        8,
        Constraint::StringList(vec!["Gray".to_string(), "Color".to_string()]),
    )
}

fn resolution(constraint: Constraint) -> Descriptor {
    descriptor("resolution", SANE_TYPE_INT, 4, constraint)
}

#[test]
fn option_names_come_from_the_descriptor() {
    let d = mode();
    let opt = Opt { descriptor: &d, index: 2 };
    assert_eq!(opt.name(), "mode");
    assert_eq!(opt.desc(), "about mode");
    assert_eq!(d.name(), "mode");
    assert_eq!(d.desc(), "about mode");
    assert_eq!(d.type_(), SANE_TYPE_STRING);
    assert_eq!(d.size(), 8);
}

#[test]
fn string_request_is_a_zeroed_buffer_of_the_size() {
    let d = mode();
    let opt = Opt { descriptor: &d, index: 2 };
    let request = opt.string_request().unwrap();
    assert_eq!(request.index, 2);
    assert_eq!(request.action, SANE_ACTION_GET_VALUE);
    match request.payload {
        Payload::Bytes(buffer) => assert_eq!(buffer, vec![0u8; 8]),
        Payload::Word(_) => panic!("a string is read into bytes"),
    }
}

#[test]
fn string_request_on_another_type_is_a_type_mismatch() {
    let d = resolution(Constraint::Free);
    let opt = Opt { descriptor: &d, index: 3 };
    assert_eq!(opt.string_request().err(), Some(Error::WrongType));
    assert_eq!(opt.get_string(SANE_STATUS_GOOD, &[0, 0, 0, 0]).err(), Some(Error::WrongType));
    assert_eq!(opt.set_string_request("x").err(), Some(Error::WrongType));
    assert_eq!(opt.set_string(SANE_STATUS_GOOD, 0).err(), Some(Error::WrongType));
}

#[test]
fn string_request_with_a_negative_size_is_refused() {
    let d = descriptor("odd", SANE_TYPE_STRING, -1, Constraint::Free);
    let opt = Opt { descriptor: &d, index: 1 };
    assert_eq!(opt.string_request().err(), Some(Error::BadLength));
}

#[test]
fn get_string_stops_at_the_first_nul() {
    let d = mode();
    let opt = Opt { descriptor: &d, index: 2 };
    let value = opt.get_string(SANE_STATUS_GOOD, b"Color\0\0\0").unwrap();
    assert_eq!(value, b"Color".to_vec());
    // What stands after the first terminator is not part of the value.
    let value = opt.get_string(SANE_STATUS_GOOD, b"Gray\0xyz").unwrap();
    assert_eq!(value, b"Gray".to_vec());
    let value = opt.get_string(SANE_STATUS_GOOD, b"\0\0\0\0\0\0\0\0").unwrap();
    assert!(value.is_empty());
}

#[test]
fn get_string_without_a_terminator_takes_the_whole_buffer() {
    let d = mode();
    let opt = Opt { descriptor: &d, index: 2 };
    let value = opt.get_string(SANE_STATUS_GOOD, b"Lineart!").unwrap();
    assert_eq!(value, b"Lineart!".to_vec());
    assert_eq!(value.len(), 8);
}

#[test]
fn get_string_value_fits_and_holds_no_nul() {
    let d = mode();
    let opt = Opt { descriptor: &d, index: 2 };
    let buffers: [&[u8; 8]; 4] = [b"Color\0\0\0", b"\0bcdefgh", b"abcdefg\0", b"a\0c\0e\0g\0"];
    for buffer in buffers {
        let value = opt.get_string(SANE_STATUS_GOOD, buffer).unwrap();
        assert!(value.len() <= 7);
        assert!(!value.contains(&0));
    }
}

#[test]
fn get_string_wants_the_whole_buffer() {
    let d = mode();
    let opt = Opt { descriptor: &d, index: 2 };
    assert_eq!(opt.get_string(SANE_STATUS_GOOD, b"Color\0").err(), Some(Error::BadLength));
    assert_eq!(opt.get_string(SANE_STATUS_GOOD, b"Color\0\0\0\0").err(), Some(Error::BadLength));
}

#[test]
fn get_string_passes_the_backend_error_on() {
    let d = mode();
    let opt = Opt { descriptor: &d, index: 2 };
    assert_eq!(
        opt.get_string(SANE_STATUS_IO_ERROR, b"Color\0\0\0").err(),
        Some(Error::Status(SANE_STATUS_IO_ERROR))
    );
}

#[test]
fn set_string_request_appends_the_terminator() {
    let d = mode();
    let opt = Opt { descriptor: &d, index: 2 };
    let request = opt.set_string_request("Color").unwrap();
    assert_eq!(request.index, 2);
    assert_eq!(request.action, SANE_ACTION_SET_VALUE);
    match request.payload {
        Payload::Bytes(buffer) => assert_eq!(buffer, b"Color\0".to_vec()),
        Payload::Word(_) => panic!("a string is written as bytes"),
    }
}

#[test]
fn set_string_request_refuses_what_does_not_fit() {
    let d = mode();
    let opt = Opt { descriptor: &d, index: 2 };
    // Seven bytes and the terminator fill the eight of the descriptor.
    assert!(opt.set_string_request("1234567").is_ok());
    assert_eq!(opt.set_string_request("12345678").err(), Some(Error::TooLong));
    assert_eq!(opt.set_string_request("a much longer value").err(), Some(Error::TooLong));
    // A czech word of seven letters takes more than seven bytes.
    assert_eq!(opt.set_string_request("\u{17e}lu\u{165}ou\u{10d}k").err(), Some(Error::TooLong));
    let none = descriptor("none", SANE_TYPE_STRING, 0, Constraint::Free);
    let opt = Opt { descriptor: &none, index: 4 };
    assert_eq!(opt.set_string_request("").err(), Some(Error::TooLong));
}

#[test]
fn set_string_surfaces_the_info_flags() {
    let d = mode();
    let opt = Opt { descriptor: &d, index: 2 };
    let info = opt.set_string(SANE_STATUS_GOOD, 6).unwrap();
    assert_eq!(info, Info(6));
    assert!(!info.inexact());
    assert!(info.reload_options());
    assert!(info.reload_params());
    assert_eq!(
        opt.set_string(SANE_STATUS_INVAL, 0).err(),
        Some(Error::Status(SANE_STATUS_INVAL))
    );
}

#[test]
fn info_flags_are_single_bits() {
    assert!(Info(1).inexact());
    assert!(!Info(1).reload_options());
    assert!(!Info(1).reload_params());
    assert!(Info(2).reload_options());
    assert!(Info(4).reload_params());
    assert!(!Info(0).inexact());
    assert!(!Info(8).inexact() && !Info(8).reload_options() && !Info(8).reload_params());
}

#[test]
fn word_accessors_check_type_and_size() {
    let int = resolution(Constraint::Free);
    let fixed = descriptor("gamma", SANE_TYPE_FIXED, 4, Constraint::Free);
    let wide = descriptor("wide", SANE_TYPE_INT, 8, Constraint::Free);
    let flag = descriptor("flag", SANE_TYPE_BOOL, 4, Constraint::Free);
    for d in [&int, &fixed] {
        let opt = Opt { descriptor: d, index: 5 };
        let get = opt.int_request().unwrap();
        assert_eq!((get.index, get.action), (5, SANE_ACTION_GET_VALUE));
        assert_eq!(opt.get_int(SANE_STATUS_GOOD, 300), Ok(300));
        let set = opt.set_int_request(-7).unwrap();
        assert_eq!((set.index, set.action), (5, SANE_ACTION_SET_VALUE));
        assert!(matches!(set.payload, Payload::Word(-7)));
        assert_eq!(opt.set_int(SANE_STATUS_GOOD, 299, 1), Ok((299, Info(1))));
    }
    for d in [&wide, &flag, &mode()] {
        let opt = Opt { descriptor: d, index: 5 };
        assert_eq!(opt.int_request().err(), Some(Error::WrongType));
        assert_eq!(opt.get_int(SANE_STATUS_GOOD, 1), Err(Error::WrongType));
        assert_eq!(opt.set_int_request(1).err(), Some(Error::WrongType));
        assert_eq!(opt.set_int(SANE_STATUS_GOOD, 1, 0), Err(Error::WrongType));
    }
}

#[test]
fn word_accessors_pass_the_backend_error_on() {
    let d = resolution(Constraint::Free);
    let opt = Opt { descriptor: &d, index: 5 };
    assert_eq!(opt.get_int(SANE_STATUS_INVAL, 0), Err(Error::Status(SANE_STATUS_INVAL)));
    assert_eq!(opt.set_int(SANE_STATUS_INVAL, 0, 0), Err(Error::Status(SANE_STATUS_INVAL)));
}

#[test]
fn get_range_only_on_a_range() {
    let range = Range { min: 50, max: 1200, quant: 50 };
    let d = resolution(Constraint::Range(range));
    let opt = Opt { descriptor: &d, index: 3 };
    let got = opt.get_range().unwrap();
    assert_eq!(got, range);
    assert_eq!((got.min(), got.max(), got.quant()), (50, 1200, 50));
    assert_eq!(opt.int_constraints().err(), Some(Error::WrongType));
    assert_eq!(opt.string_constraints().err(), Some(Error::WrongType));
}

#[test]
fn get_range_on_another_constraint_is_the_wrong_kind() {
    let kinds = [
        Constraint::Free,
        Constraint::WordList(vec![75, 150, 300]),
        Constraint::StringList(vec!["a".to_string()]),
    ];
    for constraint in kinds {
        let d = resolution(constraint);
        let opt = Opt { descriptor: &d, index: 3 };
        assert_eq!(opt.get_range(), Err(Error::WrongType));
    }
}

#[test]
fn list_constraints_only_on_their_kind() {
    let words = resolution(Constraint::WordList(vec![75, 150, 300]));
    let opt = Opt { descriptor: &words, index: 3 };
    assert_eq!(opt.int_constraints().unwrap(), &[75, 150, 300]);
    assert_eq!(opt.string_constraints().err(), Some(Error::WrongType));
    let d = mode();
    let opt = Opt { descriptor: &d, index: 2 };
    assert_eq!(opt.string_constraints().unwrap(), &vec!["Gray".to_string(), "Color".to_string()]);
    assert_eq!(opt.int_constraints().err(), Some(Error::WrongType));
    let free = resolution(Constraint::Free);
    let opt = Opt { descriptor: &free, index: 3 };
    assert_eq!(opt.int_constraints().err(), Some(Error::WrongType));
    assert_eq!(opt.string_constraints().err(), Some(Error::WrongType));
}

#[test]
fn counted_words_drop_their_count() {
    match Constraint::from_counted_words(&[3, 75, 150, 300]) {
        Ok(Constraint::WordList(words)) => assert_eq!(words, vec![75, 150, 300]),
        other => panic!("not a word list: {:?}", other),
    }
    match Constraint::from_counted_words(&[0]) {
        Ok(Constraint::WordList(words)) => assert!(words.is_empty()),
        other => panic!("not a word list: {:?}", other),
    }
}

#[test]
fn counted_words_with_a_wrong_count_are_refused() {
    assert_eq!(Constraint::from_counted_words(&[]).err(), Some(Error::Protocol));
    assert_eq!(Constraint::from_counted_words(&[2, 75]).err(), Some(Error::Protocol));
    assert_eq!(Constraint::from_counted_words(&[1, 75, 150]).err(), Some(Error::Protocol));
    assert_eq!(Constraint::from_counted_words(&[-1]).err(), Some(Error::Protocol));
}

#[test]
fn until_nul_on_edge_cases() {
    assert_eq!(until_nul(b""), Vec::<u8>::new());
    assert_eq!(until_nul(b"\0"), Vec::<u8>::new());
    assert_eq!(until_nul(b"abc"), b"abc".to_vec());
    assert_eq!(until_nul(b"ab\0c\0"), b"ab".to_vec());
}
