use vstd::prelude::*;

verus! {

/// What serde_json makes of a text value: the JSON string literal —
/// quoted and escaped — that `serde_json::to_string` produces for it,
/// a function of the characters alone.
pub uninterp spec fn json_string_lit(s: Seq<char>) -> Seq<char>;

/// Relies on `serde_json::to_string` on `&str`: it writes the JSON
/// string literal for the given characters into an in-memory buffer,
/// which cannot fail, and the output depends on the characters alone.
#[verifier::external_body]
fn escape_json_string(s: &str) -> (r: String)
    ensures
        r@ == json_string_lit(s@),
{
    serde_json::to_string(s).unwrap()
}

/// Relies on `String::push_str`: it appends the slice's characters to
/// the end of the string.
#[verifier::external_body]
fn append_str(s: &mut String, t: &str)
    ensures
        final(s)@ == old(s)@ + t@,
{
    s.push_str(t);
}

/// The broadcast message for one snapshot: a JSON object with exactly
/// the keys `lat`, `lon` and `girouette`, in that order.  The two
/// position fields are taken as already-rendered JSON number text —
/// turning a 64-bit float bit pattern into digits is the number
/// formatter's business, outside this library — and the label is
/// escaped here.
pub open spec fn record_json(lat_json: Seq<char>, lon_json: Seq<char>, girouette: Seq<char>) -> Seq<
    char,
> {
    "{\"lat\":"@ + lat_json + ",\"lon\":"@ + lon_json + ",\"girouette\":"@ + json_string_lit(
        girouette,
    ) + "}"@
}

/// Renders the broadcast message: exactly [`record_json`] of the two
/// number texts and the label.  The key names are part of the wire
/// contract; nothing else appears in the output.
pub fn render_record(lat_json: &str, lon_json: &str, girouette: &str) -> (r: String)
    ensures
        r@ == record_json(lat_json@, lon_json@, girouette@),
{
    let mut out = String::new();
    append_str(&mut out, "{\"lat\":");
    append_str(&mut out, lat_json);
    append_str(&mut out, ",\"lon\":");
    append_str(&mut out, lon_json);
    append_str(&mut out, ",\"girouette\":");
    let lit = escape_json_string(girouette);
    append_str(&mut out, lit.as_str());
    append_str(&mut out, "}");
    proof {
        assert(out@ =~= record_json(lat_json@, lon_json@, girouette@));
    }
    out
}

} // verus!
