use crate::text::hex_lower;
use crate::text::to_hex_lower;
use vstd::prelude::*;

verus! {

/// The MD5 digest of `data`: sixteen bytes.
pub uninterp spec fn md5_digest(data: Seq<u8>) -> Seq<u8>;

/// `md5::compute`: the digest of the whole input.
#[verifier::external_body]
fn md5_of(data: &[u8]) -> (digest: [u8; 16])
    ensures
        digest@ == md5_digest(data@),
{
    md5::compute(data).0
}

/// The tables of a census archive that this library extracts.
#[derive(Debug, Clone, Copy, PartialEq, Eq, Structural)]
pub enum Microdata {
    Cursos,
}

/// Why extracted bytes were not accepted.
#[derive(Debug, PartialEq, Eq)]
pub enum VerificationError {
    /// No digest is pinned for the table and year.
    NoReferenceDigest,
    /// The bytes hash to `actual`, the pinned digest is `expected`.
    DigestMismatch { expected: String, actual: String },
}

/// What a [`VerificationError`] says, as plain text.
pub ghost enum VerificationFailure {
    NoReferenceDigest,
    DigestMismatch { expected: Seq<char>, actual: Seq<char> },
}

impl View for VerificationError {
    type V = VerificationFailure;

    open spec fn view(&self) -> VerificationFailure {
        match self {
            VerificationError::NoReferenceDigest => VerificationFailure::NoReferenceDigest,
            VerificationError::DigestMismatch { expected, actual } => {
                VerificationFailure::DigestMismatch { expected: expected@, actual: actual@ }
            },
        }
    }
}

/// The outcome of a verification with the error read as plain text.
pub open spec fn verdict_view(r: Result<(), VerificationError>) -> Result<
    (),
    VerificationFailure,
> {
    match r {
        Ok(_) => Ok(()),
        Err(e) => Err(e@),
    }
}

/// The verdict on a digest `actual` where `expected` is pinned: accepted
/// only when a digest is pinned and the two are the same text.
pub open spec fn digest_verdict(expected: Option<Seq<char>>, actual: Seq<char>) -> Result<
    (),
    VerificationFailure,
> {
    match expected {
        None => Err(VerificationFailure::NoReferenceDigest),
        Some(e) => if e == actual {
            Ok(())
        } else {
            Err(VerificationFailure::DigestMismatch { expected: e, actual })
        },
    }
}

/// The verdict on the bytes `entry` as the content of `table` for `year`.
pub open spec fn verify_spec(entry: Seq<u8>, table: Microdata, year: u16) -> Result<
    (),
    VerificationFailure,
> {
    digest_verdict(table.pinned_digest(year), hex_lower(md5_digest(entry)))
}

impl Microdata {
    /// The token that the name of the table's file carries inside an archive.
    pub open spec fn name_spec(self) -> Seq<char> {
        match self {
            Microdata::Cursos => "CURSOS"@,
        }
    }

    /// The digest pinned for the table's file of `year`, in lower-case
    /// hexadecimal; `None` for a year without one.
    pub open spec fn pinned_digest(self, year: u16) -> Option<Seq<char>> {
        match self {
            Microdata::Cursos => if year == 2009 {
                Some("677421fb8ad9442370175cbadae05b77"@)
            } else if year == 2010 {
                Some("8ea106ef7dc41a27a43b9f246cfd3ffd"@)
            } else if year == 2011 {
                Some("f626dd6d17e8f31f78ddf90f680ace48"@)
            } else if year == 2012 {
                Some("f896c4a4e2b10adcf846d91486ab0ce8"@)
            } else if year == 2013 {
                Some("2bbfbe1a9afe1fe5d0d7384901ae3b7e"@)
            } else if year == 2014 {
                Some("bf70eb93a2a5cce0e0a48295c4834c20"@)
            } else if year == 2015 {
                Some("b5bd1b6b10b4f66f359deed4ac48cb80"@)
            } else if year == 2016 {
                Some("a9475f5f6815a5befb8bc91b8e2c7b1c"@)
            } else if year == 2017 {
                Some("af97168b2d83b0e4b6c1572e619c183b"@)
            } else if year == 2018 {
                Some("b852881daa9328e4ff3f3a2c6115ba51"@)
            } else if year == 2019 {
                Some("f80ea1eddafae4780728e6fb26aa549f"@)
            } else if year == 2020 {
                Some("a84c1efeedd8bcec4848ec8217b92b98"@)
            } else if year == 2021 {
                Some("05d78ff911cea316cd65f08b0e93e83d"@)
            } else {
                None
            },
        }
    }

    /// The token that the name of the table's file carries inside an archive.
    pub fn name(&self) -> (r: &str)
        ensures
            r@ == self.name_spec(),
    {
        match self {
            Microdata::Cursos => "CURSOS",
        }
    }

    /// The digest pinned for the table's file of `year`.
    pub fn original_md5(&self, year: u16) -> (r: Option<&str>)
        ensures
            match r {
                Some(digest) => self.pinned_digest(year) == Some(digest@),
                None => self.pinned_digest(year) is None,
            },
            r is Some <==> 2009 <= year <= 2021,
    {
        match self {
            Microdata::Cursos => match year {
                2009 => Some("677421fb8ad9442370175cbadae05b77"),
                2010 => Some("8ea106ef7dc41a27a43b9f246cfd3ffd"),
                2011 => Some("f626dd6d17e8f31f78ddf90f680ace48"),
                2012 => Some("f896c4a4e2b10adcf846d91486ab0ce8"),
                2013 => Some("2bbfbe1a9afe1fe5d0d7384901ae3b7e"),
                2014 => Some("bf70eb93a2a5cce0e0a48295c4834c20"),
                2015 => Some("b5bd1b6b10b4f66f359deed4ac48cb80"),
                2016 => Some("a9475f5f6815a5befb8bc91b8e2c7b1c"),
                2017 => Some("af97168b2d83b0e4b6c1572e619c183b"),
                2018 => Some("b852881daa9328e4ff3f3a2c6115ba51"),
                2019 => Some("f80ea1eddafae4780728e6fb26aa549f"),
                2020 => Some("a84c1efeedd8bcec4848ec8217b92b98"),
                2021 => Some("05d78ff911cea316cd65f08b0e93e83d"),
                _ => None,
            },
        }
    }
}

/// The MD5 digest of `data` in lower-case hexadecimal.
pub fn digest_hex(data: &[u8]) -> (s: String)
    ensures
        s@ == hex_lower(md5_digest(data@)),
        s@.len() == 32,
{
    let digest = md5_of(data);
    to_hex_lower(digest.as_slice())
}

/// Holds the digest `actual` against the pinned `expected`.
pub fn check_digest(actual: String, expected: Option<&str>) -> (r: Result<(), VerificationError>)
    ensures
        verdict_view(r) == digest_verdict(
            match expected {
                Some(e) => Some(e@),
                None => None,
            },
            actual@,
        ),
{
    match expected {
        None => Err(VerificationError::NoReferenceDigest),
        Some(e) => {
            let expected = e.to_owned();
            if expected == actual {
                Ok(())
            } else {
                Err(VerificationError::DigestMismatch { expected, actual })
            }
        },
    }
}

/// Accepts `entry_bytes` as the content of `table` for `year` only when
/// their MD5 digest is the pinned one.
pub fn verify(entry_bytes: &[u8], table: Microdata, year: u16) -> (r: Result<
    (),
    VerificationError,
>)
    ensures
        verdict_view(r) == verify_spec(entry_bytes@, table, year),
{
    let actual = digest_hex(entry_bytes);
    let expected = table.original_md5(year);
    check_digest(actual, expected)
}

} // verus!
