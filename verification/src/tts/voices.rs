//! The voices that a configuration may name.
use vstd::prelude::*;
use vstd::string::*;

verus! {

/// The voices of the Piper engine.
pub open spec fn piper_default_voices() -> Seq<&'static str> {
    seq!["es_ES-davefx-medium", "es_MX-ald-medium", "en_US-lessac-medium"]
}

/// The voices of the Kokoro engine.
pub open spec fn kokoro_default_voices() -> Seq<&'static str> {
    seq!["af_heart", "am_michael", "bf_emma"]
}

/// All voices that a configuration may name.
pub open spec fn all_known_voices() -> Seq<&'static str> {
    piper_default_voices() + kokoro_default_voices()
}

/// All voices that a configuration may name: those of Piper, then those of
/// Kokoro.
pub fn known_voice_ids() -> (r: Vec<&'static str>)
    ensures
        r@ == all_known_voices(),
{
    let mut out: Vec<&'static str> = Vec::new();
    out.push("es_ES-davefx-medium");
    out.push("es_MX-ald-medium");
    out.push("en_US-lessac-medium");
    out.push("af_heart");
    out.push("am_michael");
    out.push("bf_emma");
    assert(out@ =~= all_known_voices());
    out
}

/// The voice of the Piper engine where the configuration names none.
pub fn piper_default_voice() -> (r: &'static str)
    ensures
        r == "es_ES-davefx-medium",
{
    "es_ES-davefx-medium"
}

/// No voice is listed twice.
pub proof fn known_voices_are_distinct(i: int, j: int)
    requires
        0 <= i < j < all_known_voices().len(),
    ensures
        all_known_voices()[i]@ != all_known_voices()[j]@,
{
    reveal_strlit("es_ES-davefx-medium");
    reveal_strlit("es_MX-ald-medium");
    reveal_strlit("en_US-lessac-medium");
    reveal_strlit("af_heart");
    reveal_strlit("am_michael");
    reveal_strlit("bf_emma");
    let v = all_known_voices();
    // The lengths tell them apart, but for two that differ in their first letter.
    assert(v[0]@.len() == 19 && v[1]@.len() == 16 && v[2]@.len() == 19);
    assert(v[3]@.len() == 8 && v[4]@.len() == 10 && v[5]@.len() == 7);
    assert(v[0]@[1] == 's' && v[2]@[1] == 'n');
}

/// The default voice is one of the known voices.
pub proof fn the_default_voice_is_known()
    ensures
        all_known_voices().contains("es_ES-davefx-medium"),
{
    assert(all_known_voices()[0] == "es_ES-davefx-medium");
}

/// The voices that a configuration may name are the three of Piper, then the
/// three of Kokoro, which are told apart by their length.
pub proof fn voices_are_told_apart_by_engine(i: int)
    requires
        0 <= i < all_known_voices().len(),
    ensures
        all_known_voices().len() == 6,
        i < 3 ==> all_known_voices()[i] == piper_default_voices()[i],
        i >= 3 ==> all_known_voices()[i] == kokoro_default_voices()[i - 3],
        i < 3 <==> all_known_voices()[i]@.len() > 10,
        all_known_voices()[0]@ == "es_ES-davefx-medium"@,
        all_known_voices()[1]@ == "es_MX-ald-medium"@,
        all_known_voices()[2]@ == "en_US-lessac-medium"@,
        all_known_voices()[3]@ == "af_heart"@,
        all_known_voices()[4]@ == "am_michael"@,
        all_known_voices()[5]@ == "bf_emma"@,
{
    reveal_strlit("es_ES-davefx-medium");
    reveal_strlit("es_MX-ald-medium");
    reveal_strlit("en_US-lessac-medium");
    reveal_strlit("af_heart");
    reveal_strlit("am_michael");
    reveal_strlit("bf_emma");
}

} // verus!
