//! The file version recorded in a Windows executable's version resource.
use vstd::prelude::*;
use pelite::pe32::Pe as _;
use pelite::pe64::Pe as _;

verus! {

/// A file version as (major, minor, patch, build).
pub type FileVersion = (u16, u16, u16, u16);

/// Relies on `pelite::pe64::PeFile::from_bytes`, then `resources`,
/// `version_info` and `fixed`: the `dwFileVersion` of the 64-bit image, and
/// `Err(true)` where the parse failed on the optional-header magic. The
/// outcome also depends on the image's alignment in memory, so nothing more
/// is stated of it.
#[verifier::external_body]
fn pe64_file_version(image: &[u8]) -> (r: Result<Option<FileVersion>, bool>)
{
    match pelite::pe64::PeFile::from_bytes(image) {
        Ok(file) => Ok(file.resources().ok().and_then(|r| r.version_info().ok()).and_then(|v| v.fixed()).map(
            |f| (f.dwFileVersion.Major, f.dwFileVersion.Minor, f.dwFileVersion.Patch, f.dwFileVersion.Build),
        )),
        Err(pelite::Error::PeMagic) => Err(true),
        Err(_) => Err(false),
    }
}

/// Relies on `pelite::pe32::PeFile::from_bytes`, then `resources`,
/// `version_info` and `fixed`: the `dwFileVersion` of the 32-bit image. As
/// for the 64-bit reading, nothing is stated of the outcome.
#[verifier::external_body]
fn pe32_file_version(image: &[u8]) -> (r: Option<FileVersion>)
{
    pelite::pe32::PeFile::from_bytes(image).ok().and_then(|f| f.resources().ok())
        .and_then(|r| r.version_info().ok()).and_then(|v| v.fixed()).map(
        |f| (f.dwFileVersion.Major, f.dwFileVersion.Minor, f.dwFileVersion.Patch, f.dwFileVersion.Build),
    )
}

/// The decimal digit `d`.
pub open spec fn digit_char(d: nat) -> char {
    if d == 0 { '0' } else if d == 1 { '1' } else if d == 2 { '2' } else if d == 3 { '3' }
    else if d == 4 { '4' } else if d == 5 { '5' } else if d == 6 { '6' } else if d == 7 { '7' }
    else if d == 8 { '8' } else { '9' }
}

/// `n` written in decimal, without leading zeros.
pub open spec fn decimal(n: nat) -> Seq<char>
    decreases n,
{
    if n < 10 {
        seq![digit_char(n)]
    } else {
        decimal(n / 10).push(digit_char(n % 10))
    }
}

/// A version written as `major.minor.patch.build`.
pub open spec fn version_text(v: FileVersion) -> Seq<char> {
    decimal(v.0 as nat) + "."@ + decimal(v.1 as nat) + "."@ + decimal(v.2 as nat) + "."@ + decimal(v.3 as nat)
}

/// The version given by the two readings of an image: the 64-bit one, and
/// the 32-bit one where the 64-bit reading found the 32-bit magic (`None`
/// where it was not made or found nothing); empty where neither gives one.
pub open spec fn outcome_version(pe64: Result<Option<FileVersion>, bool>, pe32: Option<FileVersion>) -> Seq<char> {
    match pe64 {
        Ok(Some(v)) => version_text(v),
        Ok(None) => Seq::empty(),
        Err(true) => match pe32 {
            Some(v) => version_text(v),
            None => Seq::empty(),
        },
        Err(false) => Seq::empty(),
    }
}

fn digit_text(d: u16) -> (r: &'static str)
    requires
        d < 10,
    ensures
        r@ == seq![digit_char(d as nat)],
{
    proof {
        reveal_strlit("0"); reveal_strlit("1"); reveal_strlit("2"); reveal_strlit("3"); reveal_strlit("4");
        reveal_strlit("5"); reveal_strlit("6"); reveal_strlit("7"); reveal_strlit("8"); reveal_strlit("9");
    }
    if d == 0 { "0" } else if d == 1 { "1" } else if d == 2 { "2" } else if d == 3 { "3" }
    else if d == 4 { "4" } else if d == 5 { "5" } else if d == 6 { "6" } else if d == 7 { "7" }
    else if d == 8 { "8" } else { "9" }
}

/// `n` appended to `out` in decimal.
fn push_decimal(out: &mut String, n: u16)
    ensures
        final(out)@ == old(out)@ + decimal(n as nat),
    decreases n,
{
    if n < 10 {
        out.append(digit_text(n));
    } else {
        push_decimal(out, n / 10);
        out.append(digit_text(n % 10));
        assert(decimal(n as nat) == decimal((n / 10) as nat).push(digit_char((n % 10) as nat)));
        assert(old(out)@ + decimal(n as nat) =~= old(out)@ + decimal((n / 10) as nat) + seq![digit_char((n % 10) as nat)]);
    }
}

/// `v` written as `major.minor.patch.build`.
pub fn format_version(v: FileVersion) -> (r: String)
    ensures
        r@ == version_text(v),
{
    let mut s = String::new();
    push_decimal(&mut s, v.0);
    s.append(".");
    push_decimal(&mut s, v.1);
    s.append(".");
    push_decimal(&mut s, v.2);
    s.append(".");
    push_decimal(&mut s, v.3);
    assert(s@ =~= version_text(v));
    s
}

/// The version text for the outcomes of the two readings of an image.
pub fn version_from_outcomes(pe64: Result<Option<FileVersion>, bool>, pe32: Option<FileVersion>) -> (r: String)
    ensures
        r@ == outcome_version(pe64, pe32),
{
    match pe64 {
        Ok(Some(v)) => format_version(v),
        Ok(None) => String::new(),
        Err(true) => match pe32 {
            Some(v) => format_version(v),
            None => String::new(),
        },
        Err(false) => String::new(),
    }
}

/// The file version of an executable image, as `major.minor.patch.build`,
/// read as 64-bit and else as 32-bit; empty where neither reading gives one.
pub fn pe_version_text(image: &[u8]) -> (r: String)
    ensures
        r@.len() == 0 || exists|v: FileVersion| r@ == version_text(v),
{
    let pe64 = pe64_file_version(image);
    let pe32 = match pe64 {
        Err(true) => pe32_file_version(image),
        _ => None,
    };
    let r = version_from_outcomes(pe64, pe32);
    proof {
        match pe64 {
            Ok(Some(v)) => assert(r@ == version_text(v)),
            Err(true) => if let Some(v) = pe32 { assert(r@ == version_text(v)); },
            _ => {},
        }
    }
    r
}

} // verus!
