use crate::archive::select_entry;
use crate::archive::select_spec;
use crate::digest::verify;
use crate::digest::verify_spec;
use crate::digest::Microdata;
use crate::error::PipelineError;
use crate::error::PipelineFailure;
use crate::text::decimal;
use crate::text::law_decimal_is_injective;
use crate::text::lemma_middle_is_told;
use crate::text::iso_8559_1_to_utf8;
use crate::text::latin1;
use crate::text::push_decimal;
use vstd::prelude::*;
use vstd::string::StringExecFns;

verus! {

/// First census year whose archive has the layout this library understands.
pub const MIN_YEAR: u16 = 2009;

/// One past the last census year that is published.
pub const END_YEAR: u16 = 2022;

/// What the name of every microdata file inside an archive holds.
pub const MICRODATA_PREFIX: &'static str = "MICRODADOS_CADASTRO";

/// Where the archive of `year` is published.
pub open spec fn url_spec(year: u16) -> Seq<char> {
    "https://download.inep.gov.br/microdados/microdados_censo_da_educacao_superior_"@ + decimal(
        year as nat,
    ) + ".zip"@
}

/// Where the extract of `kind` for `year` is stored.
pub open spec fn path_spec(kind: Microdata, year: u16) -> Seq<char> {
    match kind {
        Microdata::Cursos => "input/cursos."@ + decimal(year as nat) + ".csv"@,
    }
}

/// What extraction makes of the archive `zip` for `year`: the course table
/// is selected, its bytes are held against the pinned digest, and only then
/// are they turned into text.
pub open spec fn extract_spec(year: u16, zip: Seq<u8>) -> Result<Seq<char>, PipelineFailure> {
    match select_spec(zip, MICRODATA_PREFIX@, Microdata::Cursos.name_spec()) {
        Err(e) => Err(PipelineFailure::Selection(e)),
        Ok(entry) => match verify_spec(entry, Microdata::Cursos, year) {
            Err(e) => Err(PipelineFailure::Verification(e)),
            Ok(_) => Ok(latin1(entry)),
        },
    }
}

/// The outcome of an extraction with text and error read as plain values.
pub open spec fn extraction_view(r: Result<String, PipelineError>) -> Result<
    Seq<char>,
    PipelineFailure,
> {
    match r {
        Ok(text) => Ok(text@),
        Err(e) => Err(e@),
    }
}

/// The year handed to [`Ces::new`] lies before [`MIN_YEAR`].
#[derive(Debug, Clone, Copy, PartialEq, Eq, Structural)]
pub struct ConstructionError {
    pub year: u16,
}

/// Handle on the census of one year.
#[derive(Debug, Clone, Copy)]
pub struct Ces {
    year: u16,
}

impl Ces {
    #[verifier::type_invariant]
    spec fn supported(self) -> bool {
        self.year >= MIN_YEAR
    }

    /// The year this handle stands for.
    pub closed spec fn spec_year(&self) -> u16 {
        self.year
    }

    /// Creates the handle of a year; years before [`MIN_YEAR`] are refused.
    pub fn new(year: u16) -> (r: Result<Ces, ConstructionError>)
        ensures
            year >= MIN_YEAR ==> r is Ok && r->Ok_0.spec_year() == year,
            year < MIN_YEAR ==> r == Err::<Ces, ConstructionError>(ConstructionError { year }),
    {
        if year < MIN_YEAR {
            Err(ConstructionError { year })
        } else {
            Ok(Ces { year })
        }
    }

    /// The handles of all published years, oldest first.
    pub fn all() -> (r: Vec<Ces>)
        ensures
            r@.len() == END_YEAR - MIN_YEAR,
            forall|i: int| 0 <= i < r@.len() ==> (#[trigger] r@[i]).spec_year() == MIN_YEAR + i,
    {
        let mut r: Vec<Ces> = Vec::new();
        let mut year: u16 = MIN_YEAR;
        while year < END_YEAR
            invariant
                MIN_YEAR <= year <= END_YEAR,
                r@.len() == year - MIN_YEAR,
                forall|i: int| 0 <= i < r@.len() ==> (#[trigger] r@[i]).spec_year() == MIN_YEAR + i,
            decreases END_YEAR - year,
        {
            r.push(Ces::new(year).unwrap());
            year = year + 1;
        }
        r
    }

    /// The year this handle stands for.
    #[verifier::when_used_as_spec(spec_year)]
    pub fn year(&self) -> (y: u16)
        ensures
            y == self.spec_year(),
            y >= MIN_YEAR,
    {
        proof {
            use_type_invariant(self);
        }
        self.year
    }

    /// The path under which the extract of `kind` for this year is stored.
    pub fn path(&self, kind: Microdata) -> (r: String)
        ensures
            r@ == path_spec(kind, self.spec_year()),
    {
        match kind {
            Microdata::Cursos => {
                let mut r = String::from_str("input/cursos.");
                push_decimal(&mut r, self.year);
                r.append(".csv");
                r
            },
        }
    }

    /// The address from which this year's archive is fetched.
    pub fn url(&self) -> (r: String)
        ensures
            r@ == url_spec(self.spec_year()),
    {
        let mut r = String::from_str(
            "https://download.inep.gov.br/microdados/microdados_censo_da_educacao_superior_",
        );
        push_decimal(&mut r, self.year);
        r.append(".zip");
        r
    }

    /// Takes the course table out of this year's archive: selects its entry,
    /// checks the entry's digest, and returns the entry as text.
    pub fn extract_cursos_microdata(&self, zip: Vec<u8>) -> (r: Result<String, PipelineError>)
        ensures
            extraction_view(r) == extract_spec(self.spec_year(), zip@),
    {
        let entry = match select_entry(zip, MICRODATA_PREFIX, Microdata::Cursos.name()) {
            Ok(entry) => entry,
            Err(e) => {
                return Err(PipelineError::Selection(e));
            },
        };
        match verify(entry.as_slice(), Microdata::Cursos, self.year) {
            Ok(_) => Ok(iso_8559_1_to_utf8(entry)),
            Err(e) => Err(PipelineError::Verification(e)),
        }
    }
}

/// The extracts of different years are stored under different paths, so the
/// pipelines of two years never write to the same place.
pub proof fn law_paths_differ_between_years(kind: Microdata, a: u16, b: u16)
    requires
        path_spec(kind, a) == path_spec(kind, b),
    ensures
        a == b,
{
    lemma_middle_is_told("input/cursos."@, decimal(a as nat), decimal(b as nat), ".csv"@);
    law_decimal_is_injective(a as nat, b as nat);
}

/// The archives of different years are fetched from different addresses.
pub proof fn law_urls_differ_between_years(a: u16, b: u16)
    requires
        url_spec(a) == url_spec(b),
    ensures
        a == b,
{
    lemma_middle_is_told(
        "https://download.inep.gov.br/microdados/microdados_censo_da_educacao_superior_"@,
        decimal(a as nat),
        decimal(b as nat),
        ".zip"@,
    );
    law_decimal_is_injective(a as nat, b as nat);
}

} // verus!
