//! The Company capability set and its two textual rendering contracts.

use vstd::prelude::*;
use vstd::string::StringExecFns;

use crate::model::CompanyModel;

verus! {

/// View of an optional borrowed string as an optional character sequence.
pub open spec fn opt_view(o: Option<&String>) -> Option<Seq<char>> {
    match o {
        Some(s) => Some(s@),
        None => None,
    }
}

/// A company description: one listed security's identity attributes.
///
/// Implementations are data objects included in some
/// [`Market`](crate::market::Market); every accessor is a pure, side-effect
/// free read of the company's model, with absence of the two optional fields
/// signalled by `None`, never by a failure.
pub trait Company {
    /// The ghost value this company-capable object represents.
    spec fn model(&self) -> CompanyModel;

    /// Get the most common name of the stock.
    fn name(&self) -> (r: &str)
        ensures
            r@ == self.model().name,
    ;

    /// Get the legal or full name of the stock, or `None` when a full name
    /// was not provided (commonly because it equals the short name).
    fn full_name(&self) -> (r: Option<&String>)
        ensures
            opt_view(r) == self.model().full_name,
    ;

    /// Get the International Securities Identification Number of the stock.
    fn isin(&self) -> (r: &str)
        ensures
            r@ == self.model().isin,
    ;

    /// Get the ticker of the stock.
    fn ticker(&self) -> (r: &str)
        ensures
            r@ == self.model().ticker,
    ;

    /// Get the extra national-registry identifier of the stock, or `None`
    /// when no such identifier is linked to it.
    fn extra_id(&self) -> (r: Option<&String>)
        ensures
            opt_view(r) == self.model().extra_id,
    ;
}

/// The display form of a company: exactly the ticker, a literal colon-space
/// separator, then the short name.
pub open spec fn display_model(c: CompanyModel) -> Seq<char> {
    c.ticker + ": "@ + c.name
}

/// A quoted field of the debug form.
pub open spec fn quoted(s: Seq<char>) -> Seq<char> {
    "\""@ + s + "\""@
}

/// An optional field of the debug form, rendered present-or-absent.
pub open spec fn opt_rendered(o: Option<Seq<char>>) -> Seq<char> {
    match o {
        Some(s) => "Some("@ + quoted(s) + ")"@,
        None => "None"@,
    }
}

/// The debug form of a company: an unlabeled positional rendering of the five
/// fields in the fixed order `(full_name, name, ticker, isin, extra_id)`,
/// with the two optional slots marked present or absent.
pub open spec fn debug_model(c: CompanyModel) -> Seq<char> {
    "("@ + opt_rendered(c.full_name) + ", "@ + quoted(c.name) + ", "@ + quoted(c.ticker) + ", "@
        + quoted(c.isin) + ", "@ + opt_rendered(c.extra_id) + ")"@
}

/// Render the display form of any company-capable object.
pub fn display_company<C: Company>(c: &C) -> (r: String)
    ensures
        r@ == display_model(c.model()),
{
    let mut s = String::from_str(c.ticker());
    s.append(": ");
    s.append(c.name());
    proof {
        assert(s@ =~= display_model(c.model()));
    }
    s
}

/// Append one quoted field of the debug form.
fn push_quoted(out: &mut String, t: &str)
    ensures
        final(out)@ == old(out)@ + quoted(t@),
{
    out.append("\"");
    out.append(t);
    out.append("\"");
    proof {
        assert(out@ =~= old(out)@ + quoted(t@));
    }
}

/// Append one optional field of the debug form.
fn push_optional(out: &mut String, t: Option<&String>)
    ensures
        final(out)@ == old(out)@ + opt_rendered(opt_view(t)),
{
    match t {
        Some(s) => {
            out.append("Some(");
            push_quoted(out, s.as_str());
            out.append(")");
            proof {
                assert(out@ =~= old(out)@ + opt_rendered(opt_view(t)));
            }
        },
        None => {
            out.append("None");
        },
    }
}

/// Render the debug form of any company-capable object.
pub fn debug_company<C: Company>(c: &C) -> (r: String)
    ensures
        r@ == debug_model(c.model()),
{
    let mut s = String::from_str("(");
    push_optional(&mut s, c.full_name());
    s.append(", ");
    push_quoted(&mut s, c.name());
    s.append(", ");
    push_quoted(&mut s, c.ticker());
    s.append(", ");
    push_quoted(&mut s, c.isin());
    s.append(", ");
    push_optional(&mut s, c.extra_id());
    s.append(")");
    proof {
        assert(s@ =~= debug_model(c.model()));
    }
    s
}

} // verus!
