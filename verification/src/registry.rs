//! The helper registry and the invocation dispatcher.
//!
//! The registry is a read-only-after-setup mapping from helper name to a
//! registered helper (signature plus implementation tag), built once in an
//! explicit setup phase before any rendering begins. Each invocation first
//! validates the call's arguments against the declared signature, then
//! runs the tagged implementation; every helper is a stateless pure
//! function, so nothing is shared between invocations.

use vstd::prelude::*;
use crate::value::StructuredValue;
use crate::error::HelperError;
use crate::codec::{spec_unquote, unquote, kind_text, spec_kind_text};
use crate::decode::{spec_format_of, spec_document, format_of};
use crate::strings::{upper_of, singular_of, to_upper_case, to_singular};
use crate::validate::{
    HelperSignature,
    ParamDecl,
    ParamKind,
    validate,
    spec_args_valid,
    spec_validation_error,
    signature_string,
};
use crate::helpers::{
    first_non_empty,
    spec_first_non_empty,
    json_str_query,
    spec_query_ok,
    spec_query_rendering,
};

verus! {

/// The implementations this library ships, tagged for dispatch.
#[derive(Debug, Clone, Copy, PartialEq, Eq, Structural)]
pub enum HelperKind {
    /// The structured-data query helper.
    JsonStrQuery,
    /// Strips one quoting layer from a string.
    Unquote,
    /// Returns the first non-empty argument.
    FirstNonEmpty,
    /// Uppercases a string.
    ToUpperCase,
    /// Singularizes a string.
    ToSingular,
}

/// A registry entry: a declared signature paired with the implementation
/// it validates calls for. Immutable after setup completes.
pub struct RegisteredHelper {
    pub signature: HelperSignature,
    pub kind: HelperKind,
}

impl RegisteredHelper {
    /// A registered helper carries a well-formed signature.
    pub open spec fn wf(self) -> bool {
        self.signature.wf()
    }
}

/// The text carried by a string scalar (the empty string for any other
/// value).
pub open spec fn text_of(v: StructuredValue) -> Seq<char> {
    match v {
        StructuredValue::Text(t) => t@,
        _ => Seq::empty(),
    }
}

/// Whether the arguments fit what the tagged implementation consumes:
/// the query helper takes path, document and format tag strings; the
/// single-string helpers take one string; the fallback helper takes any
/// number of strings.
pub open spec fn spec_kind_accepts(kind: HelperKind, args: Seq<StructuredValue>) -> bool {
    match kind {
        HelperKind::JsonStrQuery => {
            &&& args.len() >= 3
            &&& args[0] is Text
            &&& args[1] is Text
            &&& args[2] is Text
            &&& spec_format_of(text_of(args[2])) matches Some(f)
            &&& spec_query_ok(text_of(args[0]), text_of(args[1]), f)
        },
        HelperKind::Unquote => args.len() >= 1 && args[0] is Text,
        HelperKind::FirstNonEmpty => forall|i: int| 0 <= i < args.len() ==> args[i] is Text,
        HelperKind::ToUpperCase => args.len() >= 1 && args[0] is Text,
        HelperKind::ToSingular => args.len() >= 1 && args[0] is Text,
    }
}

/// The string a successful invocation returns.
pub open spec fn spec_kind_result(kind: HelperKind, args: Seq<StructuredValue>) -> Seq<char> {
    match kind {
        HelperKind::JsonStrQuery => {
            match spec_format_of(text_of(args[2])) {
                Some(f) => spec_query_rendering(text_of(args[0]), text_of(args[1]), f),
                None => Seq::empty(),
            }
        },
        HelperKind::Unquote => spec_unquote(text_of(args[0])),
        HelperKind::FirstNonEmpty => spec_first_non_empty(
            args.map_values(|v: StructuredValue| text_of(v)),
        ),
        HelperKind::ToUpperCase => upper_of(text_of(args[0])),
        HelperKind::ToSingular => singular_of(text_of(args[0])),
    }
}

/// Invokes a registered helper on already evaluated arguments: validates
/// them against the declared signature (fail-fast, with the validator's
/// precise error), then runs the tagged implementation. Succeeds exactly
/// when validation passes and the arguments fit the implementation, and
/// then returns the specified string as a string scalar.
pub fn invoke(entry: &RegisteredHelper, args: &Vec<StructuredValue>) -> (r: Result<
    StructuredValue,
    HelperError,
>)
    requires
        entry.wf(),
    ensures
        r is Ok <==> (spec_args_valid(entry.signature, args@) && spec_kind_accepts(
            entry.kind,
            args@,
        )),
        r matches Ok(v) ==> {
            &&& v matches StructuredValue::Text(u)
            &&& u@ == spec_kind_result(entry.kind, args@)
        },
        !spec_args_valid(entry.signature, args@) ==> (r matches Err(e)
            && spec_validation_error(entry.signature, args@, e)),
        (entry.kind == HelperKind::JsonStrQuery && spec_args_valid(entry.signature, args@)
            && args@.len() >= 3 && args@[0] is Text && args@[1] is Text && args@[2] is Text)
            ==> (spec_format_of(text_of(args@[2])) matches Some(f) ==> (spec_document(
            f,
            text_of(args@[1]),
        ) is None ==> (r matches Err(e) && e matches HelperError::DecodeFailure {
            format,
            message,
        } && format == f))),
{
    match validate(&entry.signature, args) {
        Ok(_) => {},
        Err(e) => {
            return Err(e);
        },
    }
    match entry.kind {
        HelperKind::JsonStrQuery => {
            if args.len() < 3 {
                return Err(HelperError::MissingParameter {
                    position: args.len(),
                    name: String::from_str("format"),
                    helper_signature: signature_string(&entry.signature),
                });
            }
            let path_str = match &args[0] {
                StructuredValue::Text(t) => t,
                other => {
                    return Err(HelperError::TypeMismatch {
                        expected: String::from_str("string"),
                        actual: String::from_str(kind_text(other)),
                    });
                },
            };
            let doc_str = match &args[1] {
                StructuredValue::Text(t) => t,
                other => {
                    return Err(HelperError::TypeMismatch {
                        expected: String::from_str("string"),
                        actual: String::from_str(kind_text(other)),
                    });
                },
            };
            let tag = match &args[2] {
                StructuredValue::Text(t) => t,
                other => {
                    return Err(HelperError::TypeMismatch {
                        expected: String::from_str("string"),
                        actual: String::from_str(kind_text(other)),
                    });
                },
            };
            let format = match format_of(tag.as_str()) {
                Some(f) => f,
                None => {
                    return Err(HelperError::TypeMismatch {
                        expected: String::from_str("format json, yaml or toml"),
                        actual: tag.clone(),
                    });
                },
            };
            match json_str_query(path_str.as_str(), doc_str.as_str(), format) {
                Ok(s) => Ok(StructuredValue::Text(s)),
                Err(e) => Err(e),
            }
        },
        HelperKind::Unquote => {
            let t = match one_text_argument(entry, args) {
                Ok(t) => t,
                Err(e) => {
                    return Err(e);
                },
            };
            Ok(StructuredValue::Text(unquote(t.as_str())))
        },
        HelperKind::ToUpperCase => {
            let t = match one_text_argument(entry, args) {
                Ok(t) => t,
                Err(e) => {
                    return Err(e);
                },
            };
            Ok(StructuredValue::Text(to_upper_case(t.as_str())))
        },
        HelperKind::ToSingular => {
            let t = match one_text_argument(entry, args) {
                Ok(t) => t,
                Err(e) => {
                    return Err(e);
                },
            };
            Ok(StructuredValue::Text(to_singular(t.as_str())))
        },
        HelperKind::FirstNonEmpty => {
            let n = args.len();
            let mut texts: Vec<String> = Vec::new();
            let mut i: usize = 0;
            while i < n
                invariant
                    0 <= i <= n,
                    n == args@.len(),
                    entry.wf(),
                    entry.kind == HelperKind::FirstNonEmpty,
                    spec_args_valid(entry.signature, args@),
                    texts@.len() == i,
                    forall|j: int| 0 <= j < i ==> args@[j] is Text,
                    forall|j: int| 0 <= j < i ==> #[trigger] texts@[j]@ == text_of(args@[j]),
                decreases n - i,
            {
                match &args[i] {
                    StructuredValue::Text(t) => {
                        texts.push(t.clone());
                    },
                    other => {
                        return Err(HelperError::TypeMismatch {
                            expected: String::from_str("string"),
                            actual: String::from_str(kind_text(other)),
                        });
                    },
                }
                i += 1;
            }
            let r = first_non_empty(&texts);
            proof {
                assert(texts@.map_values(|s: String| s@) =~= args@.map_values(
                    |v: StructuredValue| text_of(v),
                ));
            }
            Ok(StructuredValue::Text(r))
        },
    }
}

/// Position of the first entry named `name`, scanning from `i`.
pub open spec fn find_from(entries: Seq<RegisteredHelper>, name: Seq<char>, i: int) -> Option<int>
    decreases entries.len() - i,
{
    if i < 0 || i >= entries.len() {
        None
    } else if entries[i].signature.name@ == name {
        Some(i)
    } else {
        find_from(entries, name, i + 1)
    }
}

/// Whether some entry is named `name`.
pub open spec fn contains_name(entries: Seq<RegisteredHelper>, name: Seq<char>) -> bool {
    exists|i: int| 0 <= i < entries.len() && entries[i].signature.name@ == name
}

/// The helper registry: a mapping from helper name to registered helper,
/// with a two-phase lifecycle. Entries are added while unconfigured; after
/// `finish_setup` the registry is configured and immutable, and is only
/// queried.
pub struct HelperRegistry {
    pub entries: Vec<RegisteredHelper>,
    pub configured: bool,
}

impl HelperRegistry {
    /// Every entry is well-formed and no two entries share a name.
    pub open spec fn wf(self) -> bool {
        &&& forall|i: int| 0 <= i < self.entries@.len() ==> (#[trigger] self.entries@[i]).wf()
        &&& forall|i: int, j: int|
            0 <= i < j < self.entries@.len()
                ==> self.entries@[i].signature.name@ != self.entries@[j].signature.name@
    }

    /// A fresh, unconfigured, empty registry.
    pub fn new() -> (r: Self)
        ensures
            r.wf(),
            !r.configured,
            r.entries@.len() == 0,
    {
        HelperRegistry { entries: Vec::new(), configured: false }
    }

    /// Adds an entry during the setup phase. Succeeds exactly when setup is
    /// still open, the signature is well-formed and the name is not taken;
    /// otherwise the registry is unchanged.
    pub fn register(&mut self, entry: RegisteredHelper) -> (ok: bool)
        requires
            old(self).wf(),
        ensures
            final(self).wf(),
            final(self).configured == old(self).configured,
            ok <==> (!old(self).configured && entry.wf() && !contains_name(
                old(self).entries@,
                entry.signature.name@,
            )),
            ok ==> final(self).entries@ == old(self).entries@.push(entry),
            !ok ==> final(self).entries@ == old(self).entries@,
    {
        if self.configured {
            return false;
        }
        let sig_ok = entry.signature.min_args <= entry.signature.params.len() && (match entry
            .signature
            .max_args {
            Some(m) => entry.signature.min_args <= m,
            None => true,
        });
        if !sig_ok {
            proof {
                assert(self.entries@ == old(self).entries@);
            }
            return false;
        }
        let n = self.entries.len();
        let mut i: usize = 0;
        while i < n
            invariant
                0 <= i <= n,
                n == self.entries@.len(),
                self.entries@ == old(self).entries@,
                self.configured == old(self).configured,
                !self.configured,
                old(self).wf(),
                forall|j: int|
                    0 <= j < i ==> self.entries@[j].signature.name@ != entry.signature.name@,
        decreases n - i,
        {
            if crate::text::str_eq(
                self.entries[i].signature.name.as_str(),
                entry.signature.name.as_str(),
            ) {
                return false;
            }
            i += 1;
        }
        self.entries.push(entry);
        true
    }

    /// Closes the setup phase; the entries never change afterwards.
    pub fn finish_setup(&mut self)
        ensures
            final(self).entries@ == old(self).entries@,
            final(self).configured,
    {
        self.configured = true;
    }

    /// Resolves a helper name to the position of its entry.
    pub fn lookup(&self, name: &str) -> (r: Option<usize>)
        ensures
            match r {
                Some(i) => {
                    &&& i < self.entries@.len()
                    &&& self.entries@[i as int].signature.name@ == name@
                    &&& find_from(self.entries@, name@, 0) == Some(i as int)
                },
                None => !contains_name(self.entries@, name@),
            },
    {
        let n = self.entries.len();
        let mut i: usize = 0;
        while i < n
            invariant
                0 <= i <= n,
                n == self.entries@.len(),
                forall|j: int| 0 <= j < i ==> self.entries@[j].signature.name@ != name@,
                find_from(self.entries@, name@, 0) == find_from(self.entries@, name@, i as int),
            decreases n - i,
        {
            if crate::text::str_eq(self.entries[i].signature.name.as_str(), name) {
                return Some(i);
            }
            i += 1;
        }
        None
    }
}

/// One declared parameter, by name and kind.
fn decl(name: &str, kind: ParamKind) -> (r: ParamDecl)
    ensures
        r.name@ == name@,
        r.kind == kind,
{
    ParamDecl { name: name.to_owned(), kind }
}

/// One registry entry, from its name, arity bounds, parameters and tag.
fn entry_of(
    name: &str,
    min_args: usize,
    max_args: Option<usize>,
    params: Vec<ParamDecl>,
    kind: HelperKind,
) -> (r: RegisteredHelper)
    requires
        min_args <= params@.len(),
        max_args matches Some(m) ==> min_args <= m,
    ensures
        r.wf(),
        r.signature.name@ == name@,
        r.signature.min_args == min_args,
        r.signature.max_args == max_args,
        r.signature.params == params,
        r.kind == kind,
{
    RegisteredHelper {
        signature: HelperSignature { name: name.to_owned(), min_args, max_args, params },
        kind,
    }
}

/// Builds the configured registry of the helpers this library ships,
/// running the full two-phase setup.
#[verifier::rlimit(60)]
pub fn default_registry() -> (r: HelperRegistry)
    ensures
        r.wf(),
        r.configured,
        r.entries@.len() == 5,
        r.entries@[0].signature.name@ == "json_str_query"@ && r.entries@[0].kind
            == HelperKind::JsonStrQuery,
        r.entries@[1].signature.name@ == "unquote"@ && r.entries@[1].kind == HelperKind::Unquote,
        r.entries@[2].signature.name@ == "first_non_empty"@ && r.entries@[2].kind
            == HelperKind::FirstNonEmpty,
        r.entries@[3].signature.name@ == "to_upper_case"@ && r.entries@[3].kind
            == HelperKind::ToUpperCase,
        r.entries@[4].signature.name@ == "to_singular"@ && r.entries@[4].kind
            == HelperKind::ToSingular,
{
    let mut reg = HelperRegistry::new();
    let mut query_params: Vec<ParamDecl> = Vec::new();
    query_params.push(decl("path", ParamKind::Text));
    query_params.push(decl("document", ParamKind::Text));
    query_params.push(decl("format", ParamKind::Text));
    let ok1 = reg.register(
        entry_of("json_str_query", 3, Some(3), query_params, HelperKind::JsonStrQuery),
    );
    proof {
        assert(ok1);
    }
    let mut unquote_params: Vec<ParamDecl> = Vec::new();
    unquote_params.push(decl("value", ParamKind::Text));
    proof {
        assert(reg.entries@[0].signature.name@ == "json_str_query"@);
        reveal_strlit("json_str_query");
        reveal_strlit("unquote");
        assert(forall|i: int| 0 <= i < reg.entries@.len() ==> (#[trigger] reg.entries@[i].signature.name@) != "unquote"@);
        assert(!contains_name(reg.entries@, "unquote"@));
    }
    let ok2 = reg.register(
        entry_of("unquote", 1, Some(1), unquote_params, HelperKind::Unquote),
    );
    proof {
        assert(ok2);
    }
    let fne_params: Vec<ParamDecl> = Vec::new();
    proof {
        assert(reg.entries@[0].signature.name@ == "json_str_query"@);
        assert(reg.entries@[1].signature.name@ == "unquote"@);
        reveal_strlit("json_str_query");
        reveal_strlit("unquote");
        reveal_strlit("first_non_empty");
        assert(reg.entries@.len() == 2);
        assert("json_str_query"@.len() == 14);
        assert("unquote"@.len() == 7);
        assert("first_non_empty"@.len() == 15);
        assert(forall|i: int| 0 <= i < reg.entries@.len() ==> (#[trigger] reg.entries@[i].signature.name@) != "first_non_empty"@);
        assert(!contains_name(reg.entries@, "first_non_empty"@));
    }
    let ok3 = reg.register(
        entry_of("first_non_empty", 0, None, fne_params, HelperKind::FirstNonEmpty),
    );
    proof {
        assert(ok3);
    }
    let mut upper_params: Vec<ParamDecl> = Vec::new();
    upper_params.push(decl("value", ParamKind::Text));
    proof {
        assert(reg.entries@[0].signature.name@ == "json_str_query"@);
        assert(reg.entries@[1].signature.name@ == "unquote"@);
        assert(reg.entries@[2].signature.name@ == "first_non_empty"@);
        reveal_strlit("json_str_query");
        reveal_strlit("unquote");
        reveal_strlit("first_non_empty");
        reveal_strlit("to_upper_case");
        assert(reg.entries@.len() == 3);
        assert("json_str_query"@.len() == 14);
        assert("unquote"@.len() == 7);
        assert("first_non_empty"@.len() == 15);
        assert("to_upper_case"@.len() == 13);
        assert(forall|i: int| 0 <= i < reg.entries@.len() ==> (#[trigger] reg.entries@[i].signature.name@) != "to_upper_case"@);
        assert(!contains_name(reg.entries@, "to_upper_case"@));
    }
    let ok4 = reg.register(
        entry_of("to_upper_case", 1, Some(1), upper_params, HelperKind::ToUpperCase),
    );
    proof {
        assert(ok4);
    }
    let mut singular_params: Vec<ParamDecl> = Vec::new();
    singular_params.push(decl("value", ParamKind::Text));
    proof {
        assert(reg.entries@[0].signature.name@ == "json_str_query"@);
        assert(reg.entries@[1].signature.name@ == "unquote"@);
        assert(reg.entries@[2].signature.name@ == "first_non_empty"@);
        assert(reg.entries@[3].signature.name@ == "to_upper_case"@);
        reveal_strlit("json_str_query");
        reveal_strlit("unquote");
        reveal_strlit("first_non_empty");
        reveal_strlit("to_upper_case");
        reveal_strlit("to_singular");
        assert(reg.entries@.len() == 4);
        assert("json_str_query"@.len() == 14);
        assert("unquote"@.len() == 7);
        assert("first_non_empty"@.len() == 15);
        assert("to_upper_case"@.len() == 13);
        assert("to_singular"@.len() == 11);
        assert(forall|i: int| 0 <= i < reg.entries@.len() ==> (#[trigger] reg.entries@[i].signature.name@) != "to_singular"@);
        assert(!contains_name(reg.entries@, "to_singular"@));
    }
    let ok5 = reg.register(
        entry_of("to_singular", 1, Some(1), singular_params, HelperKind::ToSingular),
    );
    proof {
        assert(ok5);
    }
    reg.finish_setup();
    reg
}

/// The one string argument of a single-string helper, or the precise
/// error when it is absent or not a string.
fn one_text_argument<'a>(entry: &RegisteredHelper, args: &'a Vec<StructuredValue>) -> (r: Result<
    &'a String,
    HelperError,
>)
    ensures
        match r {
            Ok(t) => {
                &&& args@.len() >= 1
                &&& args@[0] matches StructuredValue::Text(u)
                &&& u == *t
            },
            Err(_) => !(args@.len() >= 1 && args@[0] is Text),
        },
{
    if args.len() == 0 {
        return Err(HelperError::MissingParameter {
            position: 0,
            name: String::from_str("value"),
            helper_signature: signature_string(&entry.signature),
        });
    }
    match &args[0] {
        StructuredValue::Text(t) => Ok(t),
        other => Err(HelperError::TypeMismatch {
            expected: String::from_str("string"),
            actual: String::from_str(kind_text(other)),
        }),
    }
}

} // verus!
