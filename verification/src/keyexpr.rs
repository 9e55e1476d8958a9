use vstd::prelude::*;
use crate::data::KeyExprText;
use crate::error::Error;

verus! {

#[verifier::external_type_specification]
#[verifier::external_body]
pub struct ExZKeyExpr<'a>(zenoh::key_expr::KeyExpr<'a>);

/// A native Zenoh key expression, as handed to session operations.
pub type ZKeyExpr = zenoh::key_expr::KeyExpr<'static>;

/// Whether a text is a key expression in Zenoh's canonical form: non-empty,
/// no empty chunk, wildcards only as whole `*`/`**` chunks or as `$*`, and no
/// `#` or `?`.
pub uninterp spec fn is_key_expr(s: Seq<char>) -> bool;

/// The text of a native key expression, as `KeyExpr::as_str` returns it.
pub uninterp spec fn key_expr_text(k: ZKeyExpr) -> Seq<char>;

/// Calls `zenoh::key_expr::KeyExpr::try_from(String)`, which accepts the text
/// exactly when it is a canonical key expression and then wraps it without
/// change. The contract claims that the outcome depends on the text alone and
/// that an accepted key expression holds exactly the given text.
#[verifier::external_body]
fn native_key_expr(s: String) -> (r: Option<ZKeyExpr>)
    ensures
        r is Some <==> is_key_expr(s@),
        r matches Some(k) ==> key_expr_text(k) == s@,
{
    zenoh::key_expr::KeyExpr::try_from(s).ok()
}

/// Turns a key expression data class into the native key expression of the
/// same text, or reports
/// the rejected text when it is not a canonical key expression.
pub fn into_native(key_expr: KeyExprText) -> (r: Result<ZKeyExpr, Error>)
    ensures
        r is Ok <==> is_key_expr(key_expr@),
        r matches Ok(k) ==> key_expr_text(k) == key_expr@,
        r matches Err(e) ==> e matches Error::InvalidKeyExpr(s) && s@ == key_expr@,
{
    let text = key_expr.0.clone();
    match native_key_expr(key_expr.0) {
        Some(k) => Ok(k),
        None => Err(Error::InvalidKeyExpr(text)),
    }
}

} // verus!
