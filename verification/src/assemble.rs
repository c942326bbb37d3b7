//! Assembly of the final compilation unit: the metadata statement (when
//! non-empty, ending in its newline), then one declaration line per
//! variable in the dictionary's order, then a blank line, then the user's
//! template body, in that fixed order. Empty metadata and an empty
//! dictionary contribute nothing.

use vstd::prelude::*;

use crate::convert::spec_vpairs_view;
use crate::metadata::{generate_document_metadata, spec_document_metadata, spec_mpairs_view};
use crate::render::{spec_repr, value_to_typst_repr};
use crate::text::{chars_to_string, string_chars};
use crate::value::{spec_value_view, Value, ValueView};

verus! {

/// The declaration lines for the first `k` variables: each line binds the
/// variable's name to its value's source-literal rendering.
pub open spec fn spec_decls(vars: Seq<(Seq<char>, ValueView)>, k: int) -> Seq<char>
    decreases k,
{
    if k <= 0 || k > vars.len() {
        Seq::empty()
    } else {
        spec_decls(vars, k - 1) + "#let "@ + vars[k - 1].0 + " = "@ + spec_repr(vars[k - 1].1)
            + "\n"@
    }
}

/// The assembled compilation unit.
pub open spec fn spec_assembled(
    template: Seq<char>,
    meta_stmt: Seq<char>,
    decls: Seq<char>,
) -> Seq<char> {
    meta_stmt + (if decls.len() > 0 {
        decls + "\n"@
    } else {
        Seq::empty()
    }) + template
}

/// Builds the final source text from the template body, the metadata
/// fields, and the converted variables dictionary.
#[verifier::loop_isolation(false)]
pub fn assemble_source(
    template: &str,
    metadata: &Vec<(String, String)>,
    variables: &Vec<(String, Value)>,
) -> (r: String)
    ensures
        r@ == spec_assembled(
            template@,
            spec_document_metadata(spec_mpairs_view(metadata@)),
            spec_decls(spec_vpairs_view(variables@), variables@.len() as int),
        ),
{
    let ghost vv = spec_vpairs_view(variables@);
    let stmt = generate_document_metadata(metadata);
    let mut out = string_chars(stmt.as_str());
    let mut decls: Vec<char> = Vec::new();
    let mut i: usize = 0;
    while i < variables.len()
        invariant
            i <= variables@.len(),
            decls@ == spec_decls(vv, i as int),
        decreases variables@.len() - i,
    {
        let mut kw = string_chars("#let ");
        decls.append(&mut kw);
        let mut name = string_chars(variables[i].0.as_str());
        decls.append(&mut name);
        let mut eq_sign = string_chars(" = ");
        decls.append(&mut eq_sign);
        let rendered = value_to_typst_repr(&variables[i].1);
        let mut rcs = string_chars(rendered.as_str());
        decls.append(&mut rcs);
        decls.push('\n');
        proof {
            reveal_strlit("\n");
            assert("\n"@ =~= seq!['\n']);
            assert(vv[i as int].0 == variables@[i as int].0@);
            assert(vv[i as int].1 == spec_value_view(variables@[i as int].1));
            assert(decls@ =~= spec_decls(vv, i + 1 as int));
        }
        i = i + 1;
    }
    if decls.len() > 0 {
        out.append(&mut decls);
        out.push('\n');
        proof {
            reveal_strlit("\n");
            assert("\n"@ =~= seq!['\n']);
        }
    }
    let mut body = string_chars(template);
    out.append(&mut body);
    proof {
        assert(out@ =~= spec_assembled(
            template@,
            spec_document_metadata(spec_mpairs_view(metadata@)),
            spec_decls(vv, variables@.len() as int),
        ));
    }
    chars_to_string(&out)
}

} // verus!
