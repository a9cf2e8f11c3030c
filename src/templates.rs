use vstd::prelude::*;
use crate::schema::{Config, ConfType, InternalVar, VarType, PackageConfig};
use crate::instance::PackageInstance;

verus! {

/// One line of an extended description: indented by a space, an empty line
/// written as a single `.`.
pub open spec fn para_line(l: Seq<char>) -> Seq<char> {
    " "@ + (if l.len() == 0 {
        "."@
    } else {
        l
    }) + "\n"@
}

/// The lines of `s[start..]` rendered as a paragraph, where the line under way
/// began at `start` and the scan has reached `i`.
pub open spec fn para_from(s: Seq<char>, start: int, i: int) -> Seq<char>
    decreases s.len() - i,
{
    if i >= s.len() || i < start {
        para_line(s.subrange(start, s.len() as int))
    } else if s[i] == '\n' {
        para_line(s.subrange(start, i)) + para_from(s, i + 1, i + 1)
    } else {
        para_from(s, start, i + 1)
    }
}

/// `s` as an extended description block: each `\n`-separated line on its own
/// indented line.
pub open spec fn paragraph_text(s: Seq<char>) -> Seq<char> {
    para_from(s, 0, 0)
}

/// The prompt type for a variable type.
pub open spec fn template_type(ty: VarType) -> Seq<char> {
    if ty is Bool {
        "bool"@
    } else {
        "string"@
    }
}

/// The stanza for variable `var` of the instance named `inst`.
pub open spec fn stanza(inst: Seq<char>, var: Seq<char>, v: InternalVar) -> Seq<char> {
    "\n"@ + "Template: "@ + inst + "/"@ + var + "\n"@
        + "Type: "@ + template_type(v.ty) + "\n"@
        + (match v.default {
            Some(d) => "Default: "@ + d@ + "\n"@,
            None => Seq::empty(),
        })
        + "Description: "@ + v.summary@ + "\n"@
        + (match v.long_doc {
            Some(l) => paragraph_text(l@),
            None => Seq::empty(),
        })
}

/// The stanzas for a run of internal variables, in order.
pub open spec fn ivars_text(inst: Seq<char>, vs: Seq<(String, InternalVar)>) -> Seq<char>
    decreases vs.len(),
{
    if vs.len() == 0 {
        Seq::empty()
    } else {
        ivars_text(inst, vs.drop_last()) + stanza(inst, vs.last().0@, vs.last().1)
    }
}

/// The stanzas for a run of configuration entries: those of each dynamic
/// entry's internal variables, in order.
pub open spec fn entries_text(inst: Seq<char>, cs: Seq<(String, Config)>) -> Seq<char>
    decreases cs.len(),
{
    if cs.len() == 0 {
        Seq::empty()
    } else {
        entries_text(inst, cs.drop_last()) + match cs.last().1.conf_type {
            ConfType::Dynamic { ivars, .. } => ivars_text(inst, ivars@),
            ConfType::Static { .. } => Seq::empty(),
        }
    }
}

/// Renders `text` as an extended description block.
pub fn paragraph(text: &str) -> (r: String)
    ensures
        r@ == paragraph_text(text@),
{
    let n = text.unicode_len();
    let mut out = String::new();
    let mut start: usize = 0;
    let mut i: usize = 0;
    while i < n
        invariant
            n == text@.len(),
            start <= i <= n,
            out@ + para_from(text@, start as int, i as int) == paragraph_text(text@),
        decreases n - i,
    {
        if text.get_char(i) == '\n' {
            push_line(&mut out, text, start, i);
            start = i + 1;
        }
        i = i + 1;
    }
    push_line(&mut out, text, start, n);
    out
}

/// Appends line `text[start..end]` as rendered in a paragraph.
fn push_line(out: &mut String, text: &str, start: usize, end: usize)
    requires
        start <= end <= text@.len(),
    ensures
        final(out)@ == old(out)@ + para_line(text@.subrange(start as int, end as int)),
{
    out.append(" ");
    if start == end {
        out.append(".");
    } else {
        out.append(text.substring_char(start, end));
    }
    out.append("\n");
}

/// The prompt template text of an instance: one stanza per internal variable
/// of each dynamic entry, each after a blank separator line.
pub fn generate(instance: &PackageInstance) -> (r: String)
    ensures
        r@ == entries_text(instance.name@, instance.conf_entries()),
{
    let entries = instance.config();
    let mut out = String::new();
    let mut i: usize = 0;
    while i < entries.len()
        invariant
            0 <= i <= entries@.len(),
            entries@ == instance.conf_entries(),
            out@ == entries_text(instance.name@, entries@.take(i as int)),
        decreases entries@.len() - i,
    {
        assert(entries@.take(i + 1).drop_last() =~= entries@.take(i as int));
        if let ConfType::Dynamic { ivars, .. } = &entries[i].1.conf_type {
            let ghost before = out@;
            let mut j: usize = 0;
            while j < ivars.len()
                invariant
                    0 <= j <= ivars@.len(),
                    out@ == before + ivars_text(instance.name@, ivars@.take(j as int)),
                decreases ivars@.len() - j,
            {
                assert(ivars@.take(j + 1).drop_last() =~= ivars@.take(j as int));
                push_stanza(&mut out, instance.name.as_str(), ivars[j].0.as_str(), &ivars[j].1);
                assert(out@ =~= before + ivars_text(instance.name@, ivars@.take(j + 1)));
                j = j + 1;
            }
            assert(ivars@.take(ivars@.len() as int) =~= ivars@);
        } else {
            assert(out@ + Seq::<char>::empty() =~= out@);
        }
        i = i + 1;
    }
    assert(entries@.take(entries@.len() as int) =~= entries@);
    out
}

/// Appends the stanza of one variable.
fn push_stanza(out: &mut String, inst: &str, var: &str, v: &InternalVar)
    ensures
        final(out)@ == old(out)@ + stanza(inst@, var@, *v),
{
    out.append("\n");
    out.append("Template: ");
    out.append(inst);
    out.append("/");
    out.append(var);
    out.append("\n");
    out.append("Type: ");
    out.append(if let VarType::Bool = v.ty { "bool" } else { "string" });
    out.append("\n");
    if let Some(d) = &v.default {
        out.append("Default: ");
        out.append(d.as_str());
        out.append("\n");
    }
    out.append("Description: ");
    out.append(v.summary.as_str());
    out.append("\n");
    if let Some(l) = &v.long_doc {
        let p = paragraph(l.as_str());
        out.append(p.as_str());
    }
    proof {
        assert(final(out)@ =~= old(out)@ + stanza(inst@, var@, *v));
    }
}

} // verus!
