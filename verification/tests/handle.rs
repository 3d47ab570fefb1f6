use sane_scan::options::{SANE_TYPE_INT, SANE_TYPE_STRING};
use sane_scan::parameters::SANE_FRAME_GRAY;
use sane_scan::status::{SANE_STATUS_DEVICE_BUSY, SANE_STATUS_GOOD, SANE_STATUS_NO_DOCS};
use sane_scan::{
    connection_name, option_count, Constraint, Context, Descriptor, Device, Error, Handle,
    Parameters, Phase,
};

fn descriptor(name: &str, type_: u32, size: i32) -> Descriptor {
    Descriptor {
        name: name.to_string(),
        desc: String::new(),
        type_,
        size,
        constraint: Constraint::Free,
    }
}

fn table(names: &[&str]) -> Vec<Descriptor> {
    let mut table = vec![descriptor("", SANE_TYPE_INT, 4)];
    for name in names {
        table.push(descriptor(name, SANE_TYPE_STRING, 16));
    }
    table
}

fn context() -> Context {
    Context::init(SANE_STATUS_GOOD, 0).unwrap().0
}

#[test]
fn no_devices_is_an_empty_list_and_no_error() {
    let devices = context().devices(SANE_STATUS_GOOD, Vec::new()).unwrap();
    assert_eq!(devices.len(), 0);
}

#[test]
fn devices_come_back_in_order() {
    let found = vec![
        Device {
            name: "test:0".to_string(),
            vendor: "Noname".to_string(),
            model: "frontend-tester".to_string(),
            type_: "virtual device".to_string(),
        },
        Device {
            name: "test:1".to_string(),
            vendor: "Noname".to_string(),
            model: "frontend-tester".to_string(),
            type_: "virtual device".to_string(),
        },
    ];
    let devices = context().devices(SANE_STATUS_GOOD, found).unwrap();
    assert_eq!(devices.len(), 2);
    assert_eq!(devices[0].name(), "test:0");
    assert_eq!(devices[1].name(), "test:1");
    assert_eq!(devices[0].vendor(), "Noname");
    assert_eq!(devices[0].model(), "frontend-tester");
    assert_eq!(devices[0].type_(), "virtual device");
    assert_eq!(devices[1].open().unwrap(), b"test:1\0".to_vec());
}

#[test]
fn a_failed_enumeration_is_the_backend_error() {
    let r = context().devices(SANE_STATUS_DEVICE_BUSY, Vec::new());
    assert_eq!(r.err(), Some(Error::Status(SANE_STATUS_DEVICE_BUSY)));
}

#[test]
fn connection_name_is_nul_terminated() {
    assert_eq!(connection_name("test").unwrap(), b"test\0".to_vec());
    assert_eq!(connection_name("").unwrap(), b"\0".to_vec());
}

#[test]
fn connection_name_with_a_nul_is_refused() {
    assert_eq!(connection_name("te\0st").err(), Some(Error::BadName));
    assert_eq!(connection_name("\0").err(), Some(Error::BadName));
    assert_eq!(connection_name("test\0").err(), Some(Error::BadName));
}

#[test]
fn option_zero_is_an_integer_of_native_width() {
    let first = descriptor("", SANE_TYPE_INT, 4);
    assert!(first.is_count());
    assert_eq!(option_count(&first, SANE_STATUS_GOOD, 5), Ok(5));
    assert_eq!(option_count(&first, SANE_STATUS_GOOD, 1), Ok(1));
}

#[test]
fn any_other_option_zero_is_a_breach() {
    let text = descriptor("", SANE_TYPE_STRING, 4);
    let wide = descriptor("", SANE_TYPE_INT, 8);
    assert_eq!(option_count(&text, SANE_STATUS_GOOD, 5), Err(Error::Protocol));
    assert_eq!(option_count(&wide, SANE_STATUS_GOOD, 5), Err(Error::Protocol));
    let first = descriptor("", SANE_TYPE_INT, 4);
    assert_eq!(option_count(&first, SANE_STATUS_GOOD, 0), Err(Error::Protocol));
    assert_eq!(option_count(&first, SANE_STATUS_GOOD, -3), Err(Error::Protocol));
    assert_eq!(
        option_count(&first, SANE_STATUS_DEVICE_BUSY, 5),
        Err(Error::Status(SANE_STATUS_DEVICE_BUSY))
    );
}

#[test]
fn options_are_numbered_from_one() {
    let handle = Handle::new(4, table(&["mode", "depth", "resolution"])).unwrap();
    assert_eq!(handle.count(), 4);
    let options = handle.options();
    assert_eq!(options.len(), 3);
    for (k, option) in options.iter().enumerate() {
        assert_eq!(option.index, k + 1);
        assert!(1 <= option.index && option.index < handle.count());
    }
    assert_eq!(options[0].name(), "mode");
    assert_eq!(options[1].name(), "depth");
    assert_eq!(options[2].name(), "resolution");
}

#[test]
fn a_device_with_only_the_count_has_no_options() {
    let handle = Handle::new(1, table(&[])).unwrap();
    assert_eq!(handle.options().len(), 0);
    assert_eq!(handle.descriptors().len(), 0);
}

#[test]
fn descriptors_skip_option_zero() {
    let handle = Handle::new(3, table(&["mode", "depth"])).unwrap();
    let descriptors = handle.descriptors();
    assert_eq!(descriptors.len(), 2);
    assert_eq!(descriptors[0].name(), "mode");
    assert_eq!(descriptors[1].name(), "depth");
    assert_eq!(handle.get_descriptor(0).unwrap().type_(), SANE_TYPE_INT);
    assert_eq!(handle.get_descriptor(2).unwrap().name(), "depth");
    assert!(handle.get_descriptor(3).is_none());
}

#[test]
fn a_table_that_does_not_match_its_count_is_refused() {
    assert_eq!(Handle::new(3, table(&["mode"])).err(), Some(Error::Protocol));
    assert_eq!(Handle::new(0, Vec::new()).err(), Some(Error::Protocol));
    let bad = vec![descriptor("", SANE_TYPE_STRING, 4), descriptor("mode", SANE_TYPE_STRING, 16)];
    assert_eq!(Handle::new(2, bad).err(), Some(Error::Protocol));
}

#[test]
fn parameters_are_passed_through_on_success() {
    let handle = Handle::new(1, table(&[])).unwrap();
    let raw = Parameters {
        format: SANE_FRAME_GRAY,
        last_frame: 1,
        bytes_per_line: 20,
        pixels_per_line: 20,
        lines: 10,
        depth: 8,
    };
    let p = handle.parameters(SANE_STATUS_GOOD, raw).unwrap();
    assert_eq!(p, raw);
    assert_eq!(p.format(), SANE_FRAME_GRAY);
    assert_eq!(p.last_frame(), 1);
    assert_eq!(p.bytes_per_line(), 20);
    assert_eq!(p.pixels_per_line(), 20);
    assert_eq!(p.lines(), 10);
    assert_eq!(p.depth(), 8);
    assert_eq!(
        handle.parameters(SANE_STATUS_DEVICE_BUSY, raw).err(),
        Some(Error::Status(SANE_STATUS_DEVICE_BUSY))
    );
}

#[test]
fn a_failed_start_gives_no_session() {
    let handle = Handle::new(1, table(&[])).unwrap();
    let raw = Parameters {
        format: SANE_FRAME_GRAY,
        last_frame: 1,
        bytes_per_line: 2,
        pixels_per_line: 2,
        lines: 2,
        depth: 8,
    };
    let r = handle.start(SANE_STATUS_NO_DOCS, raw);
    assert_eq!(r.err(), Some(Error::Status(SANE_STATUS_NO_DOCS)));
    let acquisition = handle.start(SANE_STATUS_GOOD, raw).unwrap();
    assert_eq!(acquisition.phase(), Phase::Started);
    assert_eq!(acquisition.expected(), 4);
    assert_eq!(acquisition.received(), 0);
}
