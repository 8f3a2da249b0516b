use freertos_sys::abi::OpenFlagBits;
use freertos_sys::error::IoError;
use freertos_sys::fs::OpenOptions;

fn opts(read: bool, write: bool, append: bool) -> OpenOptions {
    let mut o = OpenOptions::new();
    o.read(read);
    o.write(write);
    o.append(append);
    o
}

/// Flag values of a newlib-style C library, as the FreeRTOS target has them.
fn newlib_bits() -> OpenFlagBits {
    OpenFlagBits {
        rdonly: 0,
        wronly: 1,
        rdwr: 2,
        append: 0x0008,
        creat: 0x0200,
        trunc: 0x0400,
        excl: 0x0800,
        cloexec: 0x40000,
        accmode: 3,
        einval: 22,
        eintr: 4,
    }
}

#[test]
fn new_options_ask_for_nothing() {
    let o = OpenOptions::new();
    assert_eq!(o.mode(), 0o666);
    assert_eq!(o.get_access_mode(), Err(IoError::Os(libc::EINVAL)));
    assert_eq!(o.open_flags(), Err(IoError::Os(libc::EINVAL)));
}

#[test]
fn platform_flag_bits_are_libc_values() {
    let b = OpenOptions::new().flag_bits();
    assert_eq!(b.rdonly, libc::O_RDONLY);
    assert_eq!(b.wronly, libc::O_WRONLY);
    assert_eq!(b.rdwr, libc::O_RDWR);
    assert_eq!(b.append, libc::O_APPEND);
    assert_eq!(b.creat, libc::O_CREAT);
    assert_eq!(b.trunc, libc::O_TRUNC);
    assert_eq!(b.excl, libc::O_EXCL);
    assert_eq!(b.cloexec, libc::O_CLOEXEC);
    assert_eq!(b.accmode, libc::O_ACCMODE);
    assert_eq!(b.einval, libc::EINVAL);
    assert_eq!(b.eintr, libc::EINTR);
}

#[test]
fn access_modes() {
    assert_eq!(opts(true, false, false).get_access_mode(), Ok(libc::O_RDONLY));
    assert_eq!(opts(false, true, false).get_access_mode(), Ok(libc::O_WRONLY));
    assert_eq!(opts(true, true, false).get_access_mode(), Ok(libc::O_RDWR));
    assert_eq!(opts(false, false, true).get_access_mode(), Ok(libc::O_WRONLY | libc::O_APPEND));
    assert_eq!(opts(false, true, true).get_access_mode(), Ok(libc::O_WRONLY | libc::O_APPEND));
    assert_eq!(opts(true, false, true).get_access_mode(), Ok(libc::O_RDWR | libc::O_APPEND));
    assert_eq!(opts(true, true, true).get_access_mode(), Ok(libc::O_RDWR | libc::O_APPEND));
    assert_eq!(opts(false, false, false).get_access_mode(), Err(IoError::Os(libc::EINVAL)));
}

#[test]
fn creation_modes_when_writing() {
    let mut o = opts(false, true, false);
    assert_eq!(o.get_creation_mode(), Ok(0));
    o.create(true);
    assert_eq!(o.get_creation_mode(), Ok(libc::O_CREAT));
    o.truncate(true);
    assert_eq!(o.get_creation_mode(), Ok(libc::O_CREAT | libc::O_TRUNC));
    o.create(false);
    assert_eq!(o.get_creation_mode(), Ok(libc::O_TRUNC));
    o.create_new(true);
    assert_eq!(o.get_creation_mode(), Ok(libc::O_CREAT | libc::O_EXCL));
}

#[test]
fn creation_refused_without_write_access() {
    for (truncate, create, create_new) in [(true, false, false), (false, true, false), (false, false, true)] {
        let mut o = opts(true, false, false);
        o.truncate(truncate);
        o.create(create);
        o.create_new(create_new);
        assert_eq!(o.get_creation_mode(), Err(IoError::Os(libc::EINVAL)));
        assert_eq!(o.open_flags(), Err(IoError::Os(libc::EINVAL)));
    }
    assert_eq!(opts(true, false, false).get_creation_mode(), Ok(0));
}

#[test]
fn append_with_truncate() {
    let mut o = opts(false, false, true);
    o.truncate(true);
    assert_eq!(o.get_creation_mode(), Err(IoError::Os(libc::EINVAL)));
    o.create_new(true);
    assert_eq!(o.get_creation_mode(), Ok(libc::O_CREAT | libc::O_EXCL));
    let mut p = opts(false, false, true);
    p.create(true);
    assert_eq!(p.get_creation_mode(), Ok(libc::O_CREAT));
}

#[test]
fn open_flags_combine_the_parts() {
    let mut o = opts(false, true, false);
    o.create(true);
    o.truncate(true);
    assert_eq!(
        o.open_flags(),
        Ok(libc::O_CLOEXEC | libc::O_WRONLY | libc::O_CREAT | libc::O_TRUNC)
    );
    assert_eq!(opts(true, false, false).open_flags(), Ok(libc::O_CLOEXEC | libc::O_RDONLY));
}

#[test]
fn open_flags_refuse_like_the_parts() {
    // the access mode is checked first; both answer with EINVAL
    let mut o = OpenOptions::new();
    o.create(true);
    assert_eq!(o.open_flags(), Err(IoError::Os(libc::EINVAL)));
}

#[test]
fn open_flags_always_close_on_exec() {
    for read in [false, true] {
        for write in [false, true] {
            for append in [false, true] {
                if let Ok(f) = opts(read, write, append).open_flags() {
                    assert_eq!(f & libc::O_CLOEXEC, libc::O_CLOEXEC);
                }
            }
        }
    }
}

#[test]
fn create_new_always_creates_exclusively() {
    let mut o = opts(true, true, false);
    o.create_new(true);
    o.create(false);
    o.truncate(true);
    let f = o.open_flags().unwrap();
    assert_eq!(f & (libc::O_CREAT | libc::O_EXCL), libc::O_CREAT | libc::O_EXCL);
}

#[test]
fn custom_flags_cannot_change_the_access_mode() {
    let mut o = opts(true, false, false);
    o.custom_flags(libc::O_RDWR | libc::O_NONBLOCK);
    let f = o.open_flags().unwrap();
    assert_eq!(f & libc::O_ACCMODE, libc::O_RDONLY);
    assert_eq!(f & libc::O_NONBLOCK, libc::O_NONBLOCK);
    assert_eq!(f, libc::O_CLOEXEC | libc::O_RDONLY | libc::O_NONBLOCK);
}

#[test]
fn flags_for_another_c_library() {
    let mut o = opts(false, true, true).with_flag_bits(newlib_bits());
    assert_eq!(o.get_access_mode(), Ok(0x0001 | 0x0008));
    o.create(true);
    assert_eq!(o.open_flags(), Ok(0x40000 | 0x0001 | 0x0008 | 0x0200));
    o.truncate(true);
    assert_eq!(o.open_flags(), Err(IoError::Os(22)));
    o.create_new(true);
    o.custom_flags(0x4003);
    assert_eq!(o.open_flags(), Ok(0x40000 | 0x0001 | 0x0008 | 0x0200 | 0x0800 | 0x4000));
}

#[test]
fn setters_touch_one_option() {
    let mut o = OpenOptions::new();
    o.read(true);
    o.read(false);
    assert_eq!(o.get_access_mode(), Err(IoError::Os(libc::EINVAL)));
    o.write(true);
    let before = o.open_flags();
    o.custom_flags(0);
    assert_eq!(o.open_flags(), before);
}

#[test]
fn platform_flags_have_the_usual_shape() {
    let b = OpenOptions::new().flag_bits();
    assert_eq!(b.rdonly & b.accmode, b.rdonly);
    assert_eq!(b.wronly & b.accmode, b.wronly);
    assert_eq!(b.rdwr & b.accmode, b.rdwr);
    for flag in [b.append, b.creat, b.trunc, b.excl, b.cloexec] {
        assert_eq!(flag & b.accmode, 0);
    }
}
