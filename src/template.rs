use vstd::prelude::*;
use crate::fields::FieldMap;
use crate::text::{find_char, find_from, lemma_find_char_bounds};

verus! {

/// Why a placeholder could not be resolved.
#[derive(Debug, Clone, Copy, PartialEq, Eq, Structural)]
pub enum TemplateError {
    /// The placeholder holds no `.` between section and field.
    InvalidPlaceholder,
    /// The section is neither `metadata` nor `spec`.
    UnknownSection,
    /// The section's map has no such field.
    PlaceholderNotFound,
}

/// A placeholder `{...}` opens at `i`: the first `}` after it comes later than `i + 1`.
pub open spec fn placeholder_at(s: Seq<char>, i: int) -> bool {
    &&& 0 <= i < s.len()
    &&& s[i] == '{'
    &&& i + 1 < find_char(s, '}', i + 1) < s.len()
}

/// A well-formed placeholder `{section.field}` opens at `i`: its body holds a `.`.
pub open spec fn well_formed_at(s: Seq<char>, i: int) -> bool {
    &&& placeholder_at(s, i)
    &&& 0 <= find_char(s, '.', i + 1) < find_char(s, '}', i + 1)
}

/// The text contains at least one well-formed placeholder.
pub open spec fn has_placeholder(s: Seq<char>) -> bool {
    exists|i: int| well_formed_at(s, i)
}

pub open spec fn metadata_word() -> Seq<char> {
    seq!['m', 'e', 't', 'a', 'd', 'a', 't', 'a']
}

pub open spec fn spec_word() -> Seq<char> {
    seq!['s', 'p', 'e', 'c']
}

/// The value of one placeholder body `section.field`; the field keeps any further dots.
pub open spec fn placeholder_value(
    p: Seq<char>,
    metadata: Map<Seq<char>, Seq<char>>,
    spec: Map<Seq<char>, Seq<char>>,
) -> Result<Seq<char>, TemplateError> {
    let d = find_char(p, '.', 0);
    if d < 0 {
        Err(TemplateError::InvalidPlaceholder)
    } else {
        let section = p.subrange(0, d);
        let field = p.subrange(d + 1, p.len() as int);
        if section == metadata_word() {
            if metadata.contains_key(field) {
                Ok(metadata[field])
            } else {
                Err(TemplateError::PlaceholderNotFound)
            }
        } else if section == spec_word() {
            if spec.contains_key(field) {
                Ok(spec[field])
            } else {
                Err(TemplateError::PlaceholderNotFound)
            }
        } else {
            Err(TemplateError::UnknownSection)
        }
    }
}

pub open spec fn prepend(
    p: Seq<char>,
    r: Result<Seq<char>, TemplateError>,
) -> Result<Seq<char>, TemplateError> {
    match r {
        Ok(x) => Ok(p + x),
        Err(e) => Err(e),
    }
}

/// Substitution of every placeholder from position `i` on, left to right; the first
/// placeholder that cannot be resolved fails the whole text.
pub open spec fn resolve_from(
    s: Seq<char>,
    i: int,
    metadata: Map<Seq<char>, Seq<char>>,
    spec: Map<Seq<char>, Seq<char>>,
) -> Result<Seq<char>, TemplateError>
    decreases s.len() - i,
{
    if i < 0 || i >= s.len() {
        Ok(Seq::empty())
    } else if placeholder_at(s, i) {
        let c = find_char(s, '}', i + 1);
        match placeholder_value(s.subrange(i + 1, c), metadata, spec) {
            Err(e) => Err(e),
            Ok(v) => prepend(v, resolve_from(s, c + 1, metadata, spec)),
        }
    } else {
        prepend(seq![s[i]], resolve_from(s, i + 1, metadata, spec))
    }
}

pub open spec fn resolve_template(
    s: Seq<char>,
    metadata: Map<Seq<char>, Seq<char>>,
    spec: Map<Seq<char>, Seq<char>>,
) -> Result<Seq<char>, TemplateError> {
    resolve_from(s, 0, metadata, spec)
}

pub open spec fn text_result(r: Result<String, TemplateError>) -> Result<Seq<char>, TemplateError> {
    match r {
        Ok(s) => Ok(s@),
        Err(e) => Err(e),
    }
}

proof fn lemma_prepend_twice(p: Seq<char>, q: Seq<char>, r: Result<Seq<char>, TemplateError>)
    ensures
        prepend(p, prepend(q, r)) == prepend(p + q, r),
{
    if let Ok(x) = r {
        assert(p + (q + x) =~= (p + q) + x);
    }
}

/// Resolves `{section.field}` placeholders against pod metadata and spec.
pub struct TemplateParser {}

impl TemplateParser {
    pub fn new() -> (r: Result<TemplateParser, TemplateError>)
        ensures
            r is Ok,
    {
        Ok(TemplateParser {})
    }

    /// Replaces every placeholder of `template`; fails on the first one that cannot be resolved.
    pub fn resolve(&self, template: &str, pod_metadata: &FieldMap, pod_spec: &FieldMap) -> (r:
        Result<String, TemplateError>)
        ensures
            text_result(r) == resolve_template(template@, pod_metadata@, pod_spec@),
    {
        let ghost t = template@;
        let ghost m = pod_metadata@;
        let ghost sp = pod_spec@;
        let n = template.unicode_len();
        let mut out = String::new();
        let mut i: usize = 0;
        while i < n
            invariant
                i <= n,
                n == t.len(),
                t == template@,
                m == pod_metadata@,
                sp == pod_spec@,
                resolve_from(t, 0, m, sp) == prepend(out@, resolve_from(t, i as int, m, sp)),
            decreases n - i,
        {
            if template.get_char(i) == '{' {
                let c = find_from(template, '}', i + 1, n);
                if c < n && c > i + 1 {
                    assert(placeholder_at(t, i as int));
                    let inner = template.substring_char(i + 1, c);
                    match self.resolve_placeholder(inner, pod_metadata, pod_spec) {
                        Ok(v) => {
                            proof {
                                lemma_prepend_twice(out@, v@, resolve_from(t, c + 1, m, sp));
                            }
                            out.append(v.as_str());
                            i = c + 1;
                            continue ;
                        },
                        Err(e) => {
                            return Err(e);
                        },
                    }
                }
            }
            proof {
                lemma_find_char_bounds(t, '}', i + 1);
                lemma_prepend_twice(out@, seq![t[i as int]], resolve_from(t, i + 1, m, sp));
            }
            let one = template.substring_char(i, i + 1);
            assert(one@ =~= seq![t[i as int]]);
            out.append(one);
            i = i + 1;
        }
        assert(out@ + Seq::<char>::empty() =~= out@);
        Ok(out)
    }

    /// Resolves one placeholder body such as `metadata.namespace` or `spec.serviceAccountName`.
    fn resolve_placeholder(&self, placeholder: &str, pod_metadata: &FieldMap, pod_spec: &FieldMap) -> (r:
        Result<String, TemplateError>)
        ensures
            text_result(r) == placeholder_value(placeholder@, pod_metadata@, pod_spec@),
    {
        let n = placeholder.unicode_len();
        let d = find_from(placeholder, '.', 0, n);
        if d == n {
            return Err(TemplateError::InvalidPlaceholder);
        }
        let section = String::from_str(placeholder.substring_char(0, d));
        let field = String::from_str(placeholder.substring_char(d + 1, n));
        let metadata_name = String::from_str("metadata");
        let spec_name = String::from_str("spec");
        proof {
            reveal_strlit("metadata");
            reveal_strlit("spec");
            assert(metadata_name@ =~= metadata_word());
            assert(spec_name@ =~= spec_word());
        }
        if section == metadata_name {
            match pod_metadata.get(&field) {
                Some(v) => Ok(v),
                None => Err(TemplateError::PlaceholderNotFound),
            }
        } else if section == spec_name {
            match pod_spec.get(&field) {
                Some(v) => Ok(v),
                None => Err(TemplateError::PlaceholderNotFound),
            }
        } else {
            Err(TemplateError::UnknownSection)
        }
    }

    /// Whether `text` holds at least one well-formed placeholder `{section.field}`.
    pub fn has_templates(&self, text: &str) -> (r: bool)
        ensures
            r == has_placeholder(text@),
    {
        let n = text.unicode_len();
        let mut i: usize = 0;
        while i < n
            invariant
                i <= n,
                n == text@.len(),
                forall|j: int| 0 <= j < i ==> !well_formed_at(text@, j),
            decreases n - i,
        {
            if text.get_char(i) == '{' {
                let c = find_from(text, '}', i + 1, n);
                let d = find_from(text, '.', i + 1, n);
                proof {
                    lemma_find_char_bounds(text@, '}', i + 1);
                    lemma_find_char_bounds(text@, '.', i + 1);
                }
                if c < n && c > i + 1 && d < c {
                    assert(well_formed_at(text@, i as int));
                    return true;
                }
            }
            i = i + 1;
        }
        false
    }
}

impl Default for TemplateParser {
    fn default() -> (r: TemplateParser)
        ensures
            r == (TemplateParser {}),
    {
        TemplateParser {}
    }
}

} // verus!
