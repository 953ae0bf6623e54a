use dtrace::err::{
    EDT_ACCESS, EDT_BUSY, EDT_CANTLOAD, EDT_COMPILER, EDT_CTF, EDT_DIFVERS, EDT_ELFVERSION,
    EDT_NOENT, EDT_NOMEM, EDT_OVERSION, EDT_VERSION, EDT_VERSINVAL, EINVAL,
};
use dtrace::Error;

#[test]
fn it_works() {
    assert_eq!(2 + 2, 4);
}

#[test]
fn invalid_argument_code_is_invalid_argument() {
    assert_eq!(EINVAL, 22);
    assert_eq!(Error::from_code(22), Error::InvalidArgument);
}

#[test]
fn each_classified_code_has_its_kind() {
    assert_eq!(Error::from_code(1000), Error::UnsupportedVersion);
    assert_eq!(Error::from_code(1072), Error::UnsupportedOSVersion);
    assert_eq!(Error::from_code(1066), Error::UnsupportedLibelfVersion);
    assert_eq!(Error::from_code(1063), Error::DeviceNotAvailable);
    assert_eq!(Error::from_code(1061), Error::DeviceBusy);
    assert_eq!(Error::from_code(1062), Error::InsufficientPrivileges);
    assert_eq!(Error::from_code(1007), Error::MemoryAllocation);
    assert_eq!(Error::from_code(1025), Error::UnsupportedDIFVersion);
    assert_eq!(Error::from_code(1004), Error::TypeError);
}

#[test]
fn named_codes_have_the_values_of_the_library() {
    assert_eq!(EDT_VERSION, 1000);
    assert_eq!(EDT_VERSINVAL, 1001);
    assert_eq!(EDT_CTF, 1004);
    assert_eq!(EDT_COMPILER, 1005);
    assert_eq!(EDT_NOMEM, 1007);
    assert_eq!(EDT_DIFVERS, 1025);
    assert_eq!(EDT_BUSY, 1061);
    assert_eq!(EDT_ACCESS, 1062);
    assert_eq!(EDT_NOENT, 1063);
    assert_eq!(EDT_ELFVERSION, 1066);
    assert_eq!(EDT_OVERSION, 1072);
    assert_eq!(EDT_CANTLOAD, 1075);
}

#[test]
fn named_codes_classify_as_their_values_do() {
    assert_eq!(Error::from_code(EDT_VERSION), Error::UnsupportedVersion);
    assert_eq!(Error::from_code(EDT_OVERSION), Error::UnsupportedOSVersion);
    assert_eq!(Error::from_code(EDT_ELFVERSION), Error::UnsupportedLibelfVersion);
    assert_eq!(Error::from_code(EDT_NOENT), Error::DeviceNotAvailable);
    assert_eq!(Error::from_code(EDT_BUSY), Error::DeviceBusy);
    assert_eq!(Error::from_code(EDT_ACCESS), Error::InsufficientPrivileges);
    assert_eq!(Error::from_code(EDT_NOMEM), Error::MemoryAllocation);
    assert_eq!(Error::from_code(EDT_DIFVERS), Error::UnsupportedDIFVersion);
    assert_eq!(Error::from_code(EDT_CTF), Error::TypeError);
}

#[test]
fn other_codes_are_kept_as_they_came() {
    assert_eq!(Error::from_code(0), Error::Other(0));
    assert_eq!(Error::from_code(-1), Error::Other(-1));
    assert_eq!(Error::from_code(21), Error::Other(21));
    assert_eq!(Error::from_code(23), Error::Other(23));
    assert_eq!(Error::from_code(999), Error::Other(999));
    assert_eq!(Error::from_code(1076), Error::Other(1076));
    assert_eq!(Error::from_code(i32::MAX), Error::Other(i32::MAX));
    assert_eq!(Error::from_code(i32::MIN), Error::Other(i32::MIN));
}

#[test]
fn library_codes_without_a_kind_are_kept() {
    assert_eq!(Error::from_code(1003), Error::Other(1003));
    assert_eq!(Error::from_code(EDT_COMPILER), Error::Other(1005));
    assert_eq!(Error::from_code(EDT_VERSINVAL), Error::Other(1001));
    assert_eq!(Error::from_code(EDT_CANTLOAD), Error::Other(1075));
}

#[test]
fn every_code_of_the_library_has_one_error() {
    let classified = [1000, 1004, 1007, 1025, 1061, 1062, 1063, 1066, 1072];
    let mut seen: Vec<Error> = Vec::new();
    for code in 1000..=1075 {
        let e = Error::from_code(code);
        if classified.contains(&code) {
            assert!(!matches!(e, Error::Other(_)));
        } else {
            assert_eq!(e, Error::Other(code));
        }
        assert!(!seen.contains(&e));
        seen.push(e);
    }
    assert_eq!(seen.len(), 76);
    assert!(seen.contains(&Error::TypeError));
    assert!(!seen.contains(&Error::InvalidArgument));
}

#[test]
fn errors_compare_and_copy() {
    let e = Error::from_code(1063);
    let f = e;
    assert_eq!(e, f);
    assert_ne!(Error::Other(1), Error::Other(2));
    assert_ne!(Error::TypeError, Error::InvalidArgument);
    assert_eq!(format!("{:?}", Error::Other(7)), "Other(7)");
}
