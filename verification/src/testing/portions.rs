//! The portion set: the ordered, immutable sequence of byte buffers that
//! every worker cycles through. Loaded once — from a user file holding a JSON
//! array of strings, or as the built-in default — and shared read-only.

use vstd::prelude::*;

verus! {

/// Why a portions input was rejected. Both cases are fatal and occur before
/// any worker starts.
#[derive(Debug, Copy, Clone, PartialEq, Eq, Structural)]
pub enum PortionsError {
    /// The portions file could not be read.
    ReadFailed,
    /// The contents are not a JSON array of strings.
    Malformed,
}

/// How many portions the built-in default supplies when no file is given.
pub const DEFAULT_PORTION_COUNT: usize = 100;

/// The single byte of one default portion: one space character.
pub const SPACE_BYTE: u8 = 32;

/// What JSON parsing makes of a given text when the expected shape is an
/// array of strings: `None` when the text is not exactly that, otherwise each
/// string's bytes, in the array's order. The result depends on the text
/// alone.
pub uninterp spec fn portions_json(s: Seq<char>) -> Option<Seq<Seq<u8>>>;

/// Relies on `serde_json::from_str::<Vec<String>>`: parses a JSON array of
/// strings and errors on any other input; a pure function of the text.
#[verifier::external_body]
fn parse_portions_json(s: &str) -> (r: Option<Vec<Vec<u8>>>)
    ensures
        r is Some <==> portions_json(s@) is Some,
        r matches Some(v) ==> v.deep_view() == portions_json(s@)->Some_0,
{
    match serde_json::from_str::<Vec<String>>(s) {
        Ok(v) => Some(v.into_iter().map(String::into_bytes).collect()),
        Err(_) => None,
    }
}

/// The default portion set: [`DEFAULT_PORTION_COUNT`] single-space buffers.
pub open spec fn default_portion_seq() -> Seq<Seq<u8>> {
    Seq::new(DEFAULT_PORTION_COUNT as nat, |i: int| seq![SPACE_BYTE])
}

/// What loading yields for given file contents: the parsed array for a
/// well-formed file, [`PortionsError::Malformed`] for anything else, and the
/// default set when no file was given at all.
pub open spec fn loaded_portions(contents: Option<Seq<char>>) -> Result<
    Seq<Seq<u8>>,
    PortionsError,
> {
    match contents {
        None => Ok(default_portion_seq()),
        Some(text) => match portions_json(text) {
            Some(p) => Ok(p),
            None => Err(PortionsError::Malformed),
        },
    }
}

/// The image of optional file contents: the characters, if a file was given.
pub open spec fn contents_view(contents: Option<&str>) -> Option<Seq<char>> {
    match contents {
        Some(s) => Some(s@),
        None => None,
    }
}

/// The loaded, immutable portion set shared read-only by all workers. An
/// empty set is legal: a full cycle over it is a no-op.
#[derive(Debug, Clone, PartialEq, Eq)]
pub struct PortionSet {
    portions: Vec<Vec<u8>>,
}

impl View for PortionSet {
    type V = Seq<Seq<u8>>;

    closed spec fn view(&self) -> Seq<Seq<u8>> {
        self.portions.deep_view()
    }
}

impl PortionSet {
    /// How many portions one full cycle sends.
    pub fn len(&self) -> (n: usize)
        ensures
            n == self@.len(),
    {
        self.portions.len()
    }

    /// The bytes of portion `i`, the `i`-th buffer of every cycle.
    pub fn portion(&self, i: usize) -> (p: &Vec<u8>)
        requires
            i < self@.len(),
        ensures
            p@ == self@[i as int],
    {
        &self.portions[i]
    }
}

/// Builds the default portion set: exactly [`DEFAULT_PORTION_COUNT`] buffers
/// of one space character each.
fn default_portions() -> (v: Vec<Vec<u8>>)
    ensures
        v.deep_view() == default_portion_seq(),
{
    let mut v: Vec<Vec<u8>> = Vec::new();
    let mut i: usize = 0;
    while i < DEFAULT_PORTION_COUNT
        invariant
            i == v.len(),
            i <= DEFAULT_PORTION_COUNT,
            forall|k: int| 0 <= k < i ==> v@[k]@ == seq![SPACE_BYTE],
        decreases DEFAULT_PORTION_COUNT - i,
    {
        let mut portion: Vec<u8> = Vec::new();
        portion.push(SPACE_BYTE);
        assert(portion@ =~= seq![SPACE_BYTE]);
        v.push(portion);
        i = i + 1;
    }
    assert(v.deep_view() =~~= default_portion_seq()) by {
        assert(forall|k: int| 0 <= k < v@.len() ==> v.deep_view()[k] == v@[k]@);
    }
    v
}

/// Loads the portion set from the contents of the user's portions file, or
/// the default set when no file was given. Exactly [`loaded_portions`]: a
/// function of the contents alone.
pub fn get_portions(contents: Option<&str>) -> (r: Result<PortionSet, PortionsError>)
    ensures
        r matches Ok(p) ==> loaded_portions(contents_view(contents)) == Ok::<
            Seq<Seq<u8>>,
            PortionsError,
        >(p@),
        r matches Err(e) ==> loaded_portions(contents_view(contents)) == Err::<
            Seq<Seq<u8>>,
            PortionsError,
        >(e),
{
    match contents {
        None => Ok(PortionSet { portions: default_portions() }),
        Some(text) => match parse_portions_json(text) {
            Some(portions) => Ok(PortionSet { portions }),
            None => Err(PortionsError::Malformed),
        },
    }
}

/// Loading is idempotent: it is a function of the file contents alone, so two
/// loads of equal contents yield equal portion sequences.
pub proof fn lemma_loading_idempotent(
    c1: Option<Seq<char>>,
    c2: Option<Seq<char>>,
    r1: Result<Seq<Seq<u8>>, PortionsError>,
    r2: Result<Seq<Seq<u8>>, PortionsError>,
)
    requires
        c1 == c2,
        r1 == loaded_portions(c1),
        r2 == loaded_portions(c2),
    ensures
        r1 == r2,
{
}

/// A missing portions file always yields exactly [`DEFAULT_PORTION_COUNT`]
/// portions of one single space character each.
pub proof fn lemma_missing_file_default()
    ensures
        loaded_portions(None) is Ok,
        loaded_portions(None)->Ok_0.len() == DEFAULT_PORTION_COUNT,
        forall|i: int|
            0 <= i < DEFAULT_PORTION_COUNT ==> loaded_portions(None)->Ok_0[i] == seq![SPACE_BYTE],
{
}

} // verus!
