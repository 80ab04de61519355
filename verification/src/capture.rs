//! Context capture: the text of a function, taken from its definition, that
//! a recovery prompt quotes.

use vstd::prelude::*;
use vstd::string::*;

verus! {

/// `syn::parse_str` for a function item, then the identifier of its
/// signature as text, and the tokens of its attributes, signature and body
/// as text (`ToTokens::to_tokens` of each into one stream; the visibility is
/// left out). `None` where `syn` reads no function item. Nothing is claimed
/// of the result: how tokens are read and printed depends on whether the
/// process runs inside a compiler's macro expansion.
#[verifier::external_body]
fn parsed_fn(item: &str) -> (parsed: Option<(String, String)>) {
    let parsed = syn::parse_str::<syn::ItemFn>(item).ok()?;
    let mut stream = proc_macro2::TokenStream::new();
    quote::TokenStreamExt::append_all(&mut stream, &parsed.attrs);
    quote::ToTokens::to_tokens(&parsed.sig, &mut stream);
    quote::ToTokens::to_tokens(&parsed.block, &mut stream);
    Some((parsed.sig.ident.to_string(), stream.to_string()))
}

/// What every accessor's name begins with.
pub const ACCESSOR_PREFIX: &'static str = "print_source_of_";

/// The name of the accessor that gives the captured text of a function.
pub open spec fn accessor_name_of(function: Seq<char>) -> Seq<char> {
    ACCESSOR_PREFIX@ + function
}

/// The name of the accessor that gives the captured text of `function`.
pub fn accessor_name(function: &str) -> (name: String)
    ensures
        name@ == accessor_name_of(function@),
{
    String::from_str(ACCESSOR_PREFIX).concat(function)
}

/// A function paired with the text captured from its definition.
#[derive(Debug)]
pub struct CapturedSource {
    /// The function's name.
    pub function: String,
    /// The name of the accessor under which the text is offered.
    pub accessor: String,
    /// The captured text: attributes (documentation among them), signature
    /// and body.
    pub source: String,
}

impl CapturedSource {
    /// Pairs the function called `function` with the text `source`.
    pub fn new(function: String, source: String) -> (captured: CapturedSource)
        ensures
            captured.function == function,
            captured.accessor@ == accessor_name_of(function@),
            captured.source == source,
    {
        let accessor = accessor_name(function.as_str());
        CapturedSource { function, accessor, source }
    }

    /// The captured text.
    pub fn print_source(&self) -> (text: &str)
        ensures
            text@ == self.source@,
    {
        self.source.as_str()
    }
}

/// Captures the text of a function from its definition: `item` is the
/// definition as written. `None` where `item` is not read as a function
/// item. What is captured is offered under the accessor named after the
/// function that was read.
pub fn unwrap_or_ai_func(item: &str) -> (captured: Option<CapturedSource>)
    ensures
        captured matches Some(found) ==> found.accessor@ == accessor_name_of(found.function@),
{
    // Whether a function item is read, and as what, is the parser's to say;
    // what is made of its answer is `captured_from`'s.
    let parsed = parsed_fn(item);
    captured_from(parsed)
}

/// What capturing gives for what was read of an item: nothing where no
/// function item was read, and else the function's name and text as they
/// were read, under the accessor named after the function.
pub fn captured_from(parsed: Option<(String, String)>) -> (captured: Option<CapturedSource>)
    ensures
        parsed is None ==> captured is None,
        parsed matches Some((function, source)) ==> (captured matches Some(found)
            && found.function == function && found.source == source && found.accessor@
            == accessor_name_of(function@)),
{
    match parsed {
        None => None,
        Some((function, source)) => Some(CapturedSource::new(function, source)),
    }
}

} // verus!
