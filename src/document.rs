//! The parsed YAML document, as the configuration logic sees it.

use vstd::prelude::*;
use vstd::std_specs::iter::IteratorSpec;
use yaml_rust2::{ScanError, Yaml, YamlLoader};

verus! {

/// A node of a document that `yaml_rust2` parsed; what it holds is seen
/// through `yaml_view`.
#[verifier::external_type_specification]
#[verifier::external_body]
pub struct ExYaml(Yaml);

/// The error `yaml_rust2` reports for text that is not well-formed YAML.
#[verifier::external_type_specification]
#[verifier::external_body]
pub struct ExScanError(ScanError);

/// Why a configuration could not be loaded.
#[derive(Clone, Copy, Debug, PartialEq, Eq, Structural)]
pub enum LoadError {
    /// The configuration file could not be located or read.
    SourceUnavailable,
    /// The text is not well-formed YAML.
    ParseError,
    /// The text is well-formed but holds no document.
    NoDocument,
    /// A line of the text carries more nesting than the loader is given:
    /// more than 256 leading blanks and indicator characters together.
    NestingTooDeep,
    /// An entry of the endpoint list has no string `id`. The id is required,
    /// so such a document is unusable; this error is how that fatal case is
    /// reported, in place of a panic.
    MissingEndpointId,
}

/// The text an optional string holds.
pub open spec fn opt_view(o: Option<String>) -> Option<Seq<char>> {
    match o {
        Some(s) => Some(s@),
        None => None,
    }
}

/// What a YAML node holds, as far as string-keyed lookups can observe it.
/// The variants stand for `Yaml::String`, `Integer`, `Boolean`, `Array`,
/// `Hash`, `Null`, `Real` or `Alias`, and `BadValue`.
pub enum NodeView {
    Str(Seq<char>),
    Int(i64),
    Bool(bool),
    List(Seq<NodeView>),
    /// The entries of a mapping whose keys are strings.
    Dict(Map<Seq<char>, NodeView>),
    Null,
    /// A float or an alias: nothing here reads one.
    Other,
    /// The absent-value sentinel that a failed lookup yields.
    Bad,
}

/// What a node of the document tree holds.
pub uninterp spec fn yaml_view(y: Yaml) -> NodeView;

/// What the loader makes of a text: its documents, or `None` where the
/// text is not well-formed YAML.
pub uninterp spec fn yaml_documents(text: Seq<char>) -> Option<Seq<NodeView>>;

/// `node[key]`: the value under the string key `key`, or `Bad`.
pub open spec fn child(node: NodeView, key: Seq<char>) -> NodeView {
    match node {
        NodeView::Dict(m) => if m.contains_key(key) {
            m[key]
        } else {
            NodeView::Bad
        },
        _ => NodeView::Bad,
    }
}

/// Relies on `Index<&str> for yaml_rust2::Yaml`: the value under the key
/// `Yaml::String(key)` of a hash, and `BadValue` for a missing key or a node
/// that is not a hash.
#[verifier::external_body]
pub(crate) fn yaml_child(node: &Yaml, key: &str) -> (r: Yaml)
    ensures
        yaml_view(r) == child(yaml_view(*node), key@),
{
    node[key].clone()
}

/// The string a node holds, or `default`.
pub open spec fn str_or(node: NodeView, default: Seq<char>) -> Seq<char> {
    match node {
        NodeView::Str(s) => s,
        _ => default,
    }
}

/// The boolean a node holds, or `default`.
pub open spec fn bool_or(node: NodeView, default: bool) -> bool {
    match node {
        NodeView::Bool(b) => b,
        _ => default,
    }
}

/// The port a node holds: its integer where that lies in `0..=65535`, else
/// `default`.
pub open spec fn port_value(node: NodeView, default: u16) -> u16 {
    match node {
        NodeView::Int(i) => if 0 <= i <= 65535 {
            i as u16
        } else {
            default
        },
        _ => default,
    }
}

/// The elements of a sequence node; any other node has none.
pub open spec fn items_of(node: NodeView) -> Seq<NodeView> {
    match node {
        NodeView::List(s) => s,
        _ => Seq::empty(),
    }
}

/// Relies on `yaml_rust2::Yaml::as_str`: the contents of a `Yaml::String`,
/// `None` for any other node.
pub assume_specification[ Yaml::as_str ](y: &Yaml) -> (r: Option<&str>)
    ensures
        match yaml_view(*y) {
            NodeView::Str(s) => r is Some && r->0@ == s,
            _ => r is None,
        },
;

/// Relies on `yaml_rust2::Yaml::as_i64`: the value of a `Yaml::Integer`,
/// `None` for any other node.
pub assume_specification[ Yaml::as_i64 ](y: &Yaml) -> (r: Option<i64>)
    ensures
        match yaml_view(*y) {
            NodeView::Int(i) => r == Some(i),
            _ => r is None,
        },
;

/// Relies on `yaml_rust2::Yaml::as_bool`: the value of a `Yaml::Boolean`,
/// `None` for any other node.
pub assume_specification[ Yaml::as_bool ](y: &Yaml) -> (r: Option<bool>)
    ensures
        match yaml_view(*y) {
            NodeView::Bool(b) => r == Some(b),
            _ => r is None,
        },
;

/// Relies on `yaml_rust2::Yaml::is_badvalue`: whether the node is
/// `Yaml::BadValue`.
pub assume_specification[ Yaml::is_badvalue ](y: &Yaml) -> (r: bool)
    ensures
        r == (yaml_view(*y) is Bad),
;

/// Relies on `IntoIterator for yaml_rust2::Yaml`: the elements of a
/// `Yaml::Array` in order, and none for any other node.
#[verifier::external_body]
pub(crate) fn yaml_items(node: &Yaml) -> (r: Vec<Yaml>)
    ensures
        r@.len() == items_of(yaml_view(*node)).len(),
        forall|i: int| 0 <= i < r@.len() ==> yaml_view(#[trigger] r@[i]) == items_of(yaml_view(*node))[i],
{
    node.clone().into_iter().collect()
}

/// Relies on `yaml_rust2::YamlLoader::load_from_str`: the documents of a
/// well-formed text, in order, and a `ScanError` for any other text. The
/// loader descends one call per level of nesting and limits only flow
/// nesting, so texts of unbounded block nesting are left out.
#[verifier::external_body]
pub(crate) fn load_documents(text: &str) -> (r: Result<Vec<Yaml>, ScanError>)
    requires
        nesting_bounded(text@),
    ensures
        match r {
            Ok(docs) => yaml_documents(text@) == Some(docs@.map_values(|d: Yaml| yaml_view(d))),
            Err(_) => yaml_documents(text@) is None,
        },
{
    YamlLoader::load_from_str(text)
}

/// Whether `c` ends a line, as the YAML scanner reads it.
pub open spec fn is_line_break(c: char) -> bool {
    c == '\n' || c == '\r'
}

/// Whether `c` can open a block collection: an entry, key or value
/// indicator.
pub open spec fn is_indicator(c: char) -> bool {
    c == '-' || c == '?' || c == ':'
}

/// Whether `c` is indentation or separation white space.
pub open spec fn is_blank(c: char) -> bool {
    c == ' ' || c == '\t'
}

/// Whether each line of `s` carries at most 256 nesting marks, where a
/// line's marks are its leading blanks and its indicator characters. `weight`
/// counts the marks already seen on the current line and `leading` says
/// whether only blanks precede the next character on it.
///
/// A block collection lies deeper than its parent only by a greater
/// indentation (the first line of an entry aside) or by an indicator on the
/// line, so the block nesting of such a text stays below about twice the
/// bound; flow nesting the scanner limits by itself.
pub open spec fn marks_within(s: Seq<char>, weight: nat, leading: bool) -> bool
    decreases s.len(),
{
    if s.len() == 0 {
        true
    } else if is_line_break(s[0]) {
        marks_within(s.drop_first(), 0, true)
    } else {
        let counted = (leading && is_blank(s[0])) || is_indicator(s[0]);
        let w = if counted {
            weight + 1
        } else {
            weight
        };
        w <= 256 && marks_within(s.drop_first(), w, leading && is_blank(s[0]))
    }
}

/// Whether the nesting of `text` is small enough for the loader, which
/// descends one call per level.
pub open spec fn nesting_bounded(text: Seq<char>) -> bool {
    marks_within(text, 0, true)
}

/// Decides `nesting_bounded` in one pass over the characters.
pub fn nesting_within_bounds(text: &str) -> (r: bool)
    ensures
        r == nesting_bounded(text@),
{
    let mut chars = text.chars();
    let mut weight: usize = 0;
    let mut leading = true;
    proof {
        broadcast use vstd::string::axiom_spec_iter;
    }
    assert(chars.remaining() == text@);
    loop
        invariant
            weight <= 256,
            nesting_bounded(text@) == marks_within(chars.remaining(), weight as nat, leading),
            chars.decrease() is Some,
        decreases chars.decrease()->0,
    {
        let ghost rest = chars.remaining();
        match chars.next() {
            None => {
                return true;
            },
            Some(c) => {
                assert(rest.len() > 0 && c == rest[0] && chars.remaining() == rest.drop_first());
                if c == '\n' || c == '\r' {
                    weight = 0;
                    leading = true;
                } else {
                    let blank = c == ' ' || c == '\t';
                    if (leading && blank) || c == '-' || c == '?' || c == ':' {
                        if weight >= 256 {
                            return false;
                        }
                        weight = weight + 1;
                    }
                    leading = leading && blank;
                }
            },
        }
    }
}

/// The first document of `text`, or why there is none.
pub open spec fn first_document_of(text: Seq<char>) -> Result<NodeView, LoadError> {
    if !nesting_bounded(text) {
        Err(LoadError::NestingTooDeep)
    } else {
        match yaml_documents(text) {
            None => Err(LoadError::ParseError),
            Some(docs) => if docs.len() == 0 {
                Err(LoadError::NoDocument)
            } else {
                Ok(docs[0])
            },
        }
    }
}

/// Parses `text` and returns its first document. A text whose nesting is
/// beyond the loader's bound is refused before parsing.
pub fn first_document(text: &str) -> (r: Result<Yaml, LoadError>)
    ensures
        match r {
            Ok(doc) => first_document_of(text@) == Ok::<NodeView, LoadError>(yaml_view(doc)),
            Err(e) => first_document_of(text@) == Err::<NodeView, LoadError>(e),
        },
{
    if !nesting_within_bounds(text) {
        return Err(LoadError::NestingTooDeep);
    }
    match load_documents(text) {
        Err(_) => Err(LoadError::ParseError),
        Ok(mut docs) => {
            if docs.len() == 0 {
                Err(LoadError::NoDocument)
            } else {
                let doc = docs.remove(0);
                Ok(doc)
            }
        },
    }
}

/// The string that `node` holds, or `default`.
pub fn string_or(node: &Yaml, default: &str) -> (r: String)
    ensures
        r@ == str_or(yaml_view(*node), default@),
{
    match node.as_str() {
        Some(s) => s.to_owned(),
        None => default.to_owned(),
    }
}

/// The boolean that `node` holds, or `default`.
pub fn boolean_or(node: &Yaml, default: bool) -> (r: bool)
    ensures
        r == bool_or(yaml_view(*node), default),
{
    match node.as_bool() {
        Some(b) => b,
        None => default,
    }
}

/// The port that `node` holds. An integer outside `0..=65535`, or a node
/// that is no integer, gives `default`.
pub fn port_or(node: &Yaml, default: u16) -> (r: u16)
    ensures
        r == port_value(yaml_view(*node), default),
        match yaml_view(*node) {
            NodeView::Int(i) => (i < 0 || i > 65535) ==> r == default,
            _ => r == default,
        },
{
    match node.as_i64() {
        Some(i) => if 0 <= i && i <= 65535 {
            i as u16
        } else {
            default
        },
        None => default,
    }
}

} // verus!
