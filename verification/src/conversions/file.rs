//! The mode in which Python opens a file descriptor that Rust hands over.
use vstd::prelude::*;

verus! {

/// The `open` flags of the platform that the mode of a file descriptor is read from.
#[derive(Clone, Copy, Debug)]
pub struct OpenFlags {
    pub append: i32,
    pub creat: i32,
    pub excl: i32,
    pub accmode: i32,
    pub rdonly: i32,
    pub wronly: i32,
    pub rdwr: i32,
}

/// The flags of `libc`: `O_APPEND`, `O_CREAT`, `O_EXCL`, `O_ACCMODE`, `O_RDONLY`,
/// `O_WRONLY` and `O_RDWR`. Their values differ from platform to platform and are not
/// stated; what is stated holds on each of them: the three access modes differ, and the
/// append, create and exclusive flags are positive.
#[verifier::external_body]
fn libc_open_flags() -> (f: OpenFlags)
    ensures
        f.rdonly != f.wronly,
        f.rdonly != f.rdwr,
        f.wronly != f.rdwr,
        f.append > 0,
        f.creat > 0,
        f.excl > 0,
{
    OpenFlags {
        append: libc::O_APPEND,
        creat: libc::O_CREAT,
        excl: libc::O_EXCL,
        accmode: libc::O_ACCMODE,
        rdonly: libc::O_RDONLY,
        wronly: libc::O_WRONLY,
        rdwr: libc::O_RDWR,
    }
}

/// Whether the access mode of `flags` is one of read-only, write-only and read-write.
pub open spec fn known_access(flags: i32, bits: OpenFlags) -> bool {
    let access = flags & bits.accmode;
    access == bits.rdonly || access == bits.wronly || access == bits.rdwr
}

/// The Python mode of a file descriptor opened with `flags`.
pub open spec fn mode_of(flags: i32, bits: OpenFlags) -> Seq<char> {
    let access = flags & bits.accmode;
    let readable = access == bits.rdonly || access != bits.wronly;
    let writable = access != bits.rdonly;
    let appended = flags & bits.append > 0;
    let created_exclusive = flags & bits.creat > 0 && flags & bits.excl > 0;
    if created_exclusive {
        if readable {
            "xb+"@
        } else {
            "xb"@
        }
    } else if appended {
        if readable {
            "ab+"@
        } else {
            "ab"@
        }
    } else if readable {
        if writable {
            "rb+"@
        } else {
            "rb"@
        }
    } else {
        "wb"@
    }
}

/// How the mode of a file descriptor follows from its flags, on a platform whose three
/// access modes differ. Exclusive creation (`O_CREAT` with `O_EXCL`) gives `xb`; otherwise
/// `O_APPEND` gives `ab`, whatever other bits such as `O_CREAT` are set; otherwise the mode
/// is `rb`, `wb` or `rb+` for read-only, write-only and read-write. In the `x` and `a`
/// modes a `+` follows unless the descriptor is write-only.
pub proof fn lemma_mode_of_flags(flags: i32, bits: OpenFlags)
    requires
        bits.rdonly != bits.wronly,
        bits.rdonly != bits.rdwr,
        bits.wronly != bits.rdwr,
        known_access(flags, bits),
    ensures
        ({
            let access = flags & bits.accmode;
            let created_exclusive = flags & bits.creat > 0 && flags & bits.excl > 0;
            let appended = flags & bits.append > 0;
            &&& created_exclusive ==> mode_of(flags, bits) == if access == bits.wronly {
                "xb"@
            } else {
                "xb+"@
            }
            &&& !created_exclusive && appended ==> mode_of(flags, bits) == if access
                == bits.wronly {
                "ab"@
            } else {
                "ab+"@
            }
            &&& !created_exclusive && !appended ==> mode_of(flags, bits) == if access
                == bits.rdonly {
                "rb"@
            } else if access == bits.wronly {
                "wb"@
            } else {
                "rb+"@
            }
            &&& appended && !created_exclusive ==> mode_of(flags, bits)[0] == 'a'
        }),
{
    reveal_strlit("ab");
    reveal_strlit("ab+");
}

/// The mode in which Python opens a file descriptor whose flags are `flags`: exclusive
/// creation first, then appending, then reading and writing.
pub fn file_mode(flags: i32, bits: OpenFlags) -> (m: &'static str)
    requires
        known_access(flags, bits),
    ensures
        m@ == mode_of(flags, bits),
{
    let appended = flags & bits.append > 0;
    let created_exclusive = flags & bits.creat > 0 && flags & bits.excl > 0;
    let access = flags & bits.accmode;
    let (readable, writable) = if access == bits.rdonly {
        (true, false)
    } else if access == bits.wronly {
        (false, true)
    } else {
        (true, true)
    };
    if created_exclusive {
        if readable {
            "xb+"
        } else {
            "xb"
        }
    } else if appended {
        if readable {
            "ab+"
        } else {
            "ab"
        }
    } else if readable {
        if writable {
            "rb+"
        } else {
            "rb"
        }
    } else {
        "wb"
    }
}

/// The mode in which Python opens a file descriptor whose flags are `flags`, read with the
/// flags of this platform, which are returned beside it; `None` where the access mode of
/// `flags` is none of read-only, write-only and read-write.
pub fn file_mode_for_flags(flags: i32) -> (r: (OpenFlags, Option<&'static str>))
    ensures
        r.0.rdonly != r.0.wronly && r.0.rdonly != r.0.rdwr && r.0.wronly != r.0.rdwr,
        r.0.append > 0 && r.0.creat > 0 && r.0.excl > 0,
        r.1 is Some <==> known_access(flags, r.0),
        r.1 matches Some(m) ==> m@ == mode_of(flags, r.0),
{
    let bits = libc_open_flags();
    let access = flags & bits.accmode;
    if access == bits.rdonly || access == bits.wronly || access == bits.rdwr {
        let m = file_mode(flags, bits);
        (bits, Some(m))
    } else {
        (bits, None)
    }
}

} // verus!
