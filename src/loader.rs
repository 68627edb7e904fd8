//! The `require` protocol: which namespace a specifier names, what source a
//! bundled resource yields, and how a required module is wrapped so that it
//! runs in a scope of its own.
use crate::status::opt_text;
use vstd::prelude::*;

verus! {

/// Opens the function expression that gives a required module its own
/// `module` and `exports`.
pub const MODULE_PROLOGUE: &'static str = "
/***********************************
*     Start of Boop's wrapper      *
***********************************/

(function() {
    var module = {
        exports: {}
    };

    const moduleWrapper = (function (exports, module) {

/***********************************
*      End of Boop's wrapper      *
***********************************/

";

/// Calls the function expression with `module.exports` as receiver and first
/// argument, and evaluates to `module.exports`.
pub const MODULE_EPILOGUE: &'static str = "

/***********************************
*     Start of Boop's wrapper      *
***********************************/

    }).apply(module.exports, [module.exports, module]);

    return module.exports;
})();

/***********************************
*      End of Boop's wrapper      *
***********************************/
";

/// The extension appended to a specifier that lacks it.
pub open spec fn default_extension() -> Seq<char> {
    seq!['.', 'j', 's']
}

/// The prefix of a specifier in the bundled namespace.
pub open spec fn internal_prefix() -> Seq<char> {
    seq!['@', 'b', 'o', 'o', 'p', '/']
}

/// The root under which bundled resources lie.
pub open spec fn internal_root() -> Seq<char> {
    seq!['l', 'i', 'b', '/']
}

pub open spec fn has_prefix(s: Seq<char>, p: Seq<char>) -> bool {
    p.len() <= s.len() && s.subrange(0, p.len() as int) == p
}

pub open spec fn has_suffix(s: Seq<char>, p: Seq<char>) -> bool {
    p.len() <= s.len() && s.subrange(s.len() - p.len(), s.len() as int) == p
}

/// The specifier with the default extension appended where it lacks it.
pub open spec fn with_extension(s: Seq<char>) -> Seq<char> {
    if has_suffix(s, default_extension()) {
        s
    } else {
        s + default_extension()
    }
}

/// Where a module specifier points.
pub enum LocationModel {
    Internal(Seq<char>),
    External(Seq<char>),
}

/// A specifier, once extended, names a bundled resource under the internal
/// root if it has the internal prefix (which is dropped), and otherwise a path
/// relative to the external scripts directory.
pub open spec fn location_of(s: Seq<char>) -> LocationModel {
    let n = with_extension(s);
    if has_prefix(n, internal_prefix()) {
        LocationModel::Internal(internal_root() + n.skip(internal_prefix().len() as int))
    } else {
        LocationModel::External(n)
    }
}

/// Where a module specifier points: a path in the bundled resource table, or a
/// path relative to the external scripts directory.
#[derive(Debug, PartialEq)]
pub enum ScriptLocation {
    Internal(String),
    External(String),
}

impl View for ScriptLocation {
    type V = LocationModel;

    open spec fn view(&self) -> LocationModel {
        match self {
            ScriptLocation::Internal(p) => LocationModel::Internal(p@),
            ScriptLocation::External(p) => LocationModel::External(p@),
        }
    }
}

/// Whether `s` ends with `suffix`.
pub fn ends_with(s: &str, suffix: &str) -> (r: bool)
    ensures
        r == has_suffix(s@, suffix@),
{
    let n = s.unicode_len();
    let m = suffix.unicode_len();
    if m > n {
        return false;
    }
    let mut i: usize = 0;
    while i < m
        invariant
            m <= n,
            n == s@.len(),
            m == suffix@.len(),
            i <= m,
            forall|k: int| 0 <= k < i ==> s@[n - m + k] == suffix@[k],
        decreases m - i,
    {
        if s.get_char(n - m + i) != suffix.get_char(i) {
            assert(s@.subrange(n - m, n as int)[i as int] != suffix@[i as int]);
            return false;
        }
        i = i + 1;
    }
    assert(s@.subrange(n - m, n as int) =~= suffix@);
    true
}

/// Whether `s` starts with `prefix`.
pub fn starts_with(s: &str, prefix: &str) -> (r: bool)
    ensures
        r == has_prefix(s@, prefix@),
{
    let n = s.unicode_len();
    let m = prefix.unicode_len();
    if m > n {
        return false;
    }
    let mut i: usize = 0;
    while i < m
        invariant
            m <= n,
            n == s@.len(),
            m == prefix@.len(),
            i <= m,
            forall|k: int| 0 <= k < i ==> s@[k] == prefix@[k],
        decreases m - i,
    {
        if s.get_char(i) != prefix.get_char(i) {
            assert(s@.subrange(0, m as int)[i as int] != prefix@[i as int]);
            return false;
        }
        i = i + 1;
    }
    assert(s@.subrange(0, m as int) =~= prefix@);
    true
}

/// The specifier with `.js` appended unless it already ends with it.
pub fn with_default_extension(specifier: &str) -> (r: String)
    ensures
        r@ == with_extension(specifier@),
{
    proof {
        reveal_strlit(".js");
    }
    assert(".js"@ =~= default_extension());
    let mut r = String::from_str(specifier);
    if !ends_with(specifier, ".js") {
        r.append(".js");
    }
    r
}

/// Resolves a specifier to the namespace and path it names.
pub fn locate(specifier: &str) -> (r: ScriptLocation)
    ensures
        r@ == location_of(specifier@),
{
    proof {
        reveal_strlit("@boop/");
        reveal_strlit("lib/");
    }
    assert("@boop/"@ =~= internal_prefix());
    assert("lib/"@ =~= internal_root());
    let path = with_default_extension(specifier);
    let p = path.as_str();
    if starts_with(p, "@boop/") {
        let rest = p.substring_char(6, p.unicode_len());
        let r = String::from_str("lib/").concat(rest);
        ScriptLocation::Internal(r)
    } else {
        ScriptLocation::External(path)
    }
}

/// Why a specifier yielded no source.
#[derive(Debug, PartialEq)]
pub enum LoadError {
    /// The bundled table holds no resource under the path.
    NotFound(String),
    /// The bundled resource is not valid UTF-8.
    Encoding,
    /// The external file could not be opened or read; the message says why.
    Io(String),
}

pub enum LoadErrorModel {
    NotFound(Seq<char>),
    Encoding,
    Io(Seq<char>),
}

impl View for LoadError {
    type V = LoadErrorModel;

    open spec fn view(&self) -> LoadErrorModel {
        match self {
            LoadError::NotFound(p) => LoadErrorModel::NotFound(p@),
            LoadError::Encoding => LoadErrorModel::Encoding,
            LoadError::Io(m) => LoadErrorModel::Io(m@),
        }
    }
}

/// The text that UTF-8 bytes decode to, or `None` where they are not valid UTF-8.
pub uninterp spec fn utf8_decoded(b: Seq<u8>) -> Option<Seq<char>>;

/// Relies on `String::from_utf8`: `Ok` with the decoded text exactly when the
/// bytes are valid UTF-8; no bytes decode to the empty text.
#[verifier::external_body]
fn decode_utf8(bytes: Vec<u8>) -> (r: Option<String>)
    ensures
        opt_text(r) == utf8_decoded(bytes@),
        bytes@.len() == 0 ==> r is Some && r->0@.len() == 0,
{
    String::from_utf8(bytes).ok()
}

/// What a bundled resource yields as source, where `bytes` is what the table
/// holds under the path (if anything).
pub open spec fn bundled_source(path: Seq<char>, bytes: Option<Seq<u8>>) -> Result<Seq<char>, LoadErrorModel> {
    match bytes {
        None => Err(LoadErrorModel::NotFound(path)),
        Some(b) => match utf8_decoded(b) {
            Some(t) => Ok(t),
            None => Err(LoadErrorModel::Encoding),
        },
    }
}

pub open spec fn source_view(r: Result<String, LoadError>) -> Result<Seq<char>, LoadErrorModel> {
    match r {
        Ok(s) => Ok(s@),
        Err(e) => Err(e@),
    }
}

pub open spec fn opt_bytes(o: Option<Vec<u8>>) -> Option<Seq<u8>> {
    match o {
        Some(b) => Some(b@),
        None => None,
    }
}

/// The source of a bundled resource: `NotFound` where the table holds nothing
/// under `path`, `Encoding` where its bytes are not UTF-8, else the text.
pub fn bundled_script(path: &str, bytes: Option<Vec<u8>>) -> (r: Result<String, LoadError>)
    ensures
        source_view(r) == bundled_source(path@, opt_bytes(bytes)),
{
    match bytes {
        None => Err(LoadError::NotFound(String::from_str(path))),
        Some(b) => match decode_utf8(b) {
            Some(t) => Ok(t),
            None => Err(LoadError::Encoding),
        },
    }
}

/// A required module's source inside the wrapper that gives it its own scope.
pub open spec fn wrapped(source: Seq<char>) -> Seq<char> {
    MODULE_PROLOGUE@ + source + MODULE_EPILOGUE@
}

/// Wraps a required module's source so that evaluating it yields its exports.
pub fn wrap_module(source: &str) -> (r: String)
    ensures
        r@ == wrapped(source@),
{
    let mut r = String::from_str(MODULE_PROLOGUE);
    r.append(source);
    r.append(MODULE_EPILOGUE);
    r
}

/// What `require` hands to the engine: the wrapped source where loading
/// succeeded, nothing (the script sees `undefined`) where it failed.
pub open spec fn module_code(loaded: Result<Seq<char>, LoadErrorModel>) -> Option<Seq<char>> {
    match loaded {
        Ok(s) => Some(wrapped(s)),
        Err(_) => None,
    }
}

/// The code that `require` evaluates for a load outcome; `None` stands for
/// the undefined import of a failed load, which never reaches the requiring
/// script as an exception.
pub fn prepare_module(loaded: Result<String, LoadError>) -> (r: Option<String>)
    ensures
        opt_text(r) == module_code(source_view(loaded)),
{
    match loaded {
        Ok(s) => Some(wrap_module(s.as_str())),
        Err(_) => None,
    }
}

/// Requiring a bundled module that the table lacks never fails the requiring
/// script: the import is the undefined value.
pub proof fn lemma_missing_bundled_module_is_undefined(specifier: Seq<char>)
    requires
        location_of(specifier) is Internal,
    ensures
        module_code(bundled_source(location_of(specifier)->Internal_0, None)) is None,
{
}

/// The same relative path names a bundled resource under the internal prefix
/// and an external file without it: the two resolve independently.
pub proof fn lemma_namespaces_independent(path: Seq<char>)
    requires
        !has_prefix(path, internal_prefix()),
    ensures
        location_of(internal_prefix() + path) == LocationModel::Internal(
            internal_root() + with_extension(path),
        ),
        location_of(path) == LocationModel::External(with_extension(path)),
{
    let q = internal_prefix() + path;
    let e = default_extension();
    if path.len() >= 3 {
        assert(q.subrange(q.len() - 3, q.len() as int) =~= path.subrange(path.len() - 3, path.len() as int));
    } else {
        assert(q.subrange(q.len() - 3, q.len() as int)[0] != e[0]);
    }
    assert(with_extension(q) =~= internal_prefix() + with_extension(path));
    assert(with_extension(q).subrange(0, 6) =~= internal_prefix());
    assert(with_extension(q).skip(6) =~= with_extension(path));
    if !has_suffix(path, e) {
        let w = path + e;
        if w.len() >= 6 && w.subrange(0, 6) == internal_prefix() {
            if path.len() >= 6 {
                assert(path.subrange(0, 6) =~= w.subrange(0, 6));
            } else {
                assert(w.subrange(0, 6)[path.len() as int] == e[0]);
            }
        }
    }
}

} // verus!
