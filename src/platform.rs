use vstd::prelude::*;

use vstd::string::{StringExecFns, StringSliceAdditionalSpecFns};

verus! {

/// How a target path is reached.
#[derive(Debug, Clone, Copy, PartialEq, Eq, Structural)]
pub enum DeviceType {
    /// `\\.\PhysicalDriveN`: a whole disk.
    PhysicalDrive,
    /// `\\.\X:`: a volume.
    LogicalDrive,
    /// Anything else: a file.
    File,
}

/// Why drive enumeration failed.
#[derive(Debug, Clone, Copy, PartialEq, Eq, Structural)]
pub enum PlatformError {
    /// The system reported no logical drives at all.
    NoLogicalDrives,
}

/// Number of physical drive slots probed.
pub const MAX_PHYSICAL_DRIVES: u32 = 32;

/// Number of drive letters, `A` to `Z`.
pub const DRIVE_LETTERS: u32 = 26;

pub open spec fn physical_prefix() -> Seq<u8> {
    "\\\\.\\PhysicalDrive".spec_bytes()
}

pub open spec fn device_namespace() -> Seq<u8> {
    "\\\\.\\".spec_bytes()
}

pub open spec fn has_prefix(s: Seq<u8>, prefix: Seq<u8>) -> bool {
    prefix.len() <= s.len() && s.subrange(0, prefix.len() as int) == prefix
}

/// The kind of a path, from the UTF-8 bytes of its text.
pub open spec fn device_type_spec(s: Seq<u8>) -> DeviceType {
    if has_prefix(s, physical_prefix()) {
        DeviceType::PhysicalDrive
    } else if s.len() == 6 && has_prefix(s, device_namespace()) && s.last() == 58u8 {
        DeviceType::LogicalDrive
    } else {
        DeviceType::File
    }
}

fn starts_with_bytes(s: &[u8], prefix: &[u8]) -> (r: bool)
    ensures
        r == has_prefix(s@, prefix@),
{
    if prefix.len() > s.len() {
        return false;
    }
    let mut i: usize = 0;
    while i < prefix.len()
        invariant
            prefix@.len() <= s@.len(),
            i <= prefix@.len(),
            forall|j: int| 0 <= j < i ==> s@[j] == prefix@[j],
        decreases prefix@.len() - i,
    {
        if s[i] != prefix[i] {
            assert(s@.subrange(0, prefix@.len() as int)[i as int] != prefix@[i as int]);
            return false;
        }
        i = i + 1;
    }
    assert(s@.subrange(0, prefix@.len() as int) =~= prefix@);
    true
}

/// Classifies a path: a physical drive, a logical drive, or a file.
pub fn get_device_type(path: &str) -> (r: DeviceType)
    ensures
        r == device_type_spec(path.spec_bytes()),
{
    let bytes = path.as_bytes();
    if starts_with_bytes(bytes, "\\\\.\\PhysicalDrive".as_bytes()) {
        DeviceType::PhysicalDrive
    } else if bytes.len() == 6 && starts_with_bytes(bytes, "\\\\.\\".as_bytes()) && bytes[5] == 58u8 {
        DeviceType::LogicalDrive
    } else {
        DeviceType::File
    }
}

/// Whether a path names a physical or logical drive in device notation.
pub fn is_windows_device_path(path: &str) -> (r: bool)
    ensures
        r == (device_type_spec(path.spec_bytes()) != DeviceType::File),
{
    match get_device_type(path) {
        DeviceType::File => false,
        _ => true,
    }
}

/// The drive letter with index `i` (`A` is 0).
pub open spec fn letter_spec(i: nat) -> Seq<char> {
    if i < 26 {
        seq![
            "A"@,
            "B"@,
            "C"@,
            "D"@,
            "E"@,
            "F"@,
            "G"@,
            "H"@,
            "I"@,
            "J"@,
            "K"@,
            "L"@,
            "M"@,
            "N"@,
            "O"@,
            "P"@,
            "Q"@,
            "R"@,
            "S"@,
            "T"@,
            "U"@,
            "V"@,
            "W"@,
            "X"@,
            "Y"@,
            "Z"@
        ][i as int]
    } else {
        ""@
    }
}

/// The decimal digit `d`.
pub open spec fn digit_spec(d: nat) -> Seq<char> {
    if d < 10 {
        seq!["0"@, "1"@, "2"@, "3"@, "4"@, "5"@, "6"@, "7"@, "8"@, "9"@][d as int]
    } else {
        ""@
    }
}

/// `n` in decimal, for `n` below 100.
pub open spec fn decimal_spec(n: nat) -> Seq<char> {
    if n < 10 {
        digit_spec(n)
    } else {
        digit_spec(n / 10) + digit_spec(n % 10)
    }
}

/// `\\.\X:` for the drive letter with index `i`.
pub open spec fn logical_drive_path(i: nat) -> Seq<char> {
    "\\\\.\\"@ + letter_spec(i) + ":"@
}

/// `\\.\PhysicalDriveN` for drive number `n`.
pub open spec fn physical_drive_path_spec(n: nat) -> Seq<char> {
    "\\\\.\\PhysicalDrive"@ + decimal_spec(n)
}

pub open spec fn bit_set(mask: u32, i: nat) -> bool {
    (mask >> (i as u32)) & 1u32 == 1u32
}

/// The paths, in order, of the drives among the first `n` whose bit is set
/// in `mask`, each drawn by `path`.
pub open spec fn drives_in_mask(mask: u32, n: nat, path: spec_fn(nat) -> Seq<char>) -> Seq<Seq<char>>
    decreases n,
{
    if n == 0 {
        seq![]
    } else {
        let before = drives_in_mask(mask, (n - 1) as nat, path);
        if bit_set(mask, (n - 1) as nat) {
            before.push(path((n - 1) as nat))
        } else {
            before
        }
    }
}

fn drive_letter(i: u32) -> (r: &'static str)
    requires
        i < DRIVE_LETTERS,
    ensures
        r@ == letter_spec(i as nat),
{
    match i {
        0 => "A",
        1 => "B",
        2 => "C",
        3 => "D",
        4 => "E",
        5 => "F",
        6 => "G",
        7 => "H",
        8 => "I",
        9 => "J",
        10 => "K",
        11 => "L",
        12 => "M",
        13 => "N",
        14 => "O",
        15 => "P",
        16 => "Q",
        17 => "R",
        18 => "S",
        19 => "T",
        20 => "U",
        21 => "V",
        22 => "W",
        23 => "X",
        24 => "Y",
        _ => "Z",
    }
}

fn digit(d: u32) -> (r: &'static str)
    requires
        d < 10,
    ensures
        r@ == digit_spec(d as nat),
{
    match d {
        0 => "0",
        1 => "1",
        2 => "2",
        3 => "3",
        4 => "4",
        5 => "5",
        6 => "6",
        7 => "7",
        8 => "8",
        _ => "9",
    }
}

/// The device path of physical drive `n`.
pub fn physical_drive_path(n: u32) -> (r: String)
    requires
        n < MAX_PHYSICAL_DRIVES,
    ensures
        r@ == physical_drive_path_spec(n as nat),
{
    let mut path = String::from_str("\\\\.\\PhysicalDrive");
    if n < 10 {
        path.append(digit(n));
    } else {
        path.append(digit(n / 10));
        path.append(digit(n % 10));
        assert(path@ =~= physical_drive_path_spec(n as nat));
    }
    path
}

/// The device path of the drive letter with index `i`.
pub fn logical_drive_path_of(i: u32) -> (r: String)
    requires
        i < DRIVE_LETTERS,
    ensures
        r@ == logical_drive_path(i as nat),
{
    let mut path = String::from_str("\\\\.\\");
    path.append(drive_letter(i));
    path.append(":");
    path
}

/// The physical drives that answered a probe: bit `n` of `present` is set
/// when drive `n` could be opened. Paths come in drive order.
pub fn list_physical_drives(present: u32) -> (r: Vec<String>)
    ensures
        r@.map_values(|s: String| s@) == drives_in_mask(
            present,
            MAX_PHYSICAL_DRIVES as nat,
            |n: nat| physical_drive_path_spec(n),
        ),
{
    let ghost path = |n: nat| physical_drive_path_spec(n);
    let mut drives: Vec<String> = Vec::new();
    let mut i: u32 = 0;
    while i < MAX_PHYSICAL_DRIVES
        invariant
            i <= MAX_PHYSICAL_DRIVES,
            path == (|n: nat| physical_drive_path_spec(n)),
            drives@.map_values(|s: String| s@) == drives_in_mask(present, i as nat, path),
        decreases MAX_PHYSICAL_DRIVES - i,
    {
        if (present >> i) & 1u32 == 1u32 {
            let p = physical_drive_path(i);
            drives.push(p);
        }
        proof {
            assert(drives@.map_values(|s: String| s@) =~= drives_in_mask(present, (i + 1) as nat, path));
        }
        i = i + 1;
    }
    drives
}

/// The logical drives of a drive-letter mask (bit 0 is `A`), in letter
/// order. A mask of zero means the system query failed.
pub fn list_logical_drives(drive_mask: u32) -> (r: Result<Vec<String>, PlatformError>)
    ensures
        drive_mask == 0 ==> r == Err::<Vec<String>, PlatformError>(PlatformError::NoLogicalDrives),
        drive_mask != 0 ==> match r {
            Ok(v) => v@.map_values(|s: String| s@) == drives_in_mask(
                drive_mask,
                DRIVE_LETTERS as nat,
                |i: nat| logical_drive_path(i),
            ),
            Err(_) => false,
        },
{
    if drive_mask == 0 {
        return Err(PlatformError::NoLogicalDrives);
    }
    let ghost path = |i: nat| logical_drive_path(i);
    let mut drives: Vec<String> = Vec::new();
    let mut i: u32 = 0;
    while i < DRIVE_LETTERS
        invariant
            i <= DRIVE_LETTERS,
            path == (|i: nat| logical_drive_path(i)),
            drives@.map_values(|s: String| s@) == drives_in_mask(drive_mask, i as nat, path),
        decreases DRIVE_LETTERS - i,
    {
        if (drive_mask >> i) & 1u32 == 1u32 {
            let p = logical_drive_path_of(i);
            drives.push(p);
        }
        proof {
            assert(drives@.map_values(|s: String| s@) =~= drives_in_mask(drive_mask, (i + 1) as nat, path));
        }
        i = i + 1;
    }
    Ok(drives)
}

} // verus!
