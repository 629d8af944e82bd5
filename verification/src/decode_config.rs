//! The decode subsystem's configuration: a tagged union choosing beam search
//! or greedy decoding, persisted as pretty-printed structured text, with the
//! codec proved to round-trip.
//!
//! The on-disk text of a value is its pretty encoding, e.g.
//! `{"decoder": {"type": "beam", "num_beams": 4}}` spread over lines with
//! two-space indentation. Decoding ignores whitespace between tokens: a text
//! decodes to `v` exactly when it equals `v`'s compact encoding once every
//! whitespace character is removed.

use vstd::prelude::*;
use vstd::string::StringExecFns;

use crate::contract::SupernovaConfig;
use crate::numerals::canonical_u32_of;
use crate::numerals::dec_str;
use crate::numerals::dec_val;
use crate::numerals::is_digit_char;
use crate::numerals::lemma_dec_str_canonical;
use crate::numerals::parse_canonical_u32;
use crate::numerals::u32_to_decimal;
use crate::text::char_sub;
use crate::text::char_vecs_equal;
use crate::text::has_char_prefix;
use crate::text::is_ws_char;
use crate::text::lemma_strip_ws_append;
use crate::text::lemma_strip_ws_id;
use crate::text::str_chars;
use crate::text::strip_chars;
use crate::text::strip_ws;

verus! {

/// How decoding is performed: beam search with a beam count, or greedy.
#[derive(Clone, Copy, PartialEq, Eq, Structural, Debug)]
pub enum DecoderConfig {
    Beam { num_beams: u32 },
    Greedy,
}

/// The decoding settings persisted for the decode subsystem.
#[derive(Clone, Copy, PartialEq, Eq, Structural, Debug)]
pub struct SupernovaDecodeConfig {
    pub decoder: DecoderConfig,
}

impl Default for SupernovaDecodeConfig {
    /// Beam search with four beams.
    fn default() -> (r: Self)
        ensures
            r == (SupernovaDecodeConfig { decoder: DecoderConfig::Beam { num_beams: 4 } }),
    {
        SupernovaDecodeConfig { decoder: DecoderConfig::Beam { num_beams: 4 } }
    }
}

/// The compact encoding of a decoder choice, without any whitespace.
pub open spec fn decoder_compact(v: DecoderConfig) -> Seq<char> {
    match v {
        DecoderConfig::Beam { num_beams } => "{\"type\":\"beam\",\"num_beams\":"@ + dec_str(
            num_beams as nat,
        ) + "}"@,
        DecoderConfig::Greedy => "{\"type\":\"greedy\"}"@,
    }
}

/// The compact encoding's opening for the beam variant, up to the beam count.
pub open spec fn beam_compact_prefix() -> Seq<char> {
    "{\"type\":\"beam\",\"num_beams\":"@
}

/// The decoder choice a whitespace-free text denotes, if any.
pub open spec fn decoder_of_compact(t: Seq<char>) -> Option<DecoderConfig> {
    if t == "{\"type\":\"greedy\"}"@ {
        Some(DecoderConfig::Greedy)
    } else if t.len() > beam_compact_prefix().len() + 1 && t.subrange(
        0,
        beam_compact_prefix().len() as int,
    ) == beam_compact_prefix() && t.last() == '}' {
        match canonical_u32_of(t.subrange(beam_compact_prefix().len() as int, t.len() - 1)) {
            Some(n) => Some(DecoderConfig::Beam { num_beams: n }),
            None => None,
        }
    } else {
        None
    }
}

/// The decoder choice a whitespace-free text denotes, if any.
fn decoder_of_compact_exec(t: &Vec<char>) -> (r: Option<DecoderConfig>)
    ensures
        r == decoder_of_compact(t@),
{
    let greedy = str_chars("{\"type\":\"greedy\"}");
    if char_vecs_equal(t, &greedy) {
        return Some(DecoderConfig::Greedy);
    }
    let pre = str_chars("{\"type\":\"beam\",\"num_beams\":");
    proof {
        reveal_strlit("{\"type\":\"beam\",\"num_beams\":");
    }
    if t.len() > pre.len() + 1 && has_char_prefix(t, &pre) && t[t.len() - 1] == '}' {
        let digits = char_sub(t, pre.len(), t.len() - 1);
        match parse_canonical_u32(&digits) {
            Some(n) => Some(DecoderConfig::Beam { num_beams: n }),
            None => None,
        }
    } else {
        None
    }
}

/// The compact encoding decodes back to the choice it encodes.
pub proof fn lemma_decoder_compact_round_trip(v: DecoderConfig)
    ensures
        decoder_of_compact(decoder_compact(v)) == Some(v),
{
    reveal_strlit("{\"type\":\"greedy\"}");
    reveal_strlit("{\"type\":\"beam\",\"num_beams\":");
    reveal_strlit("}");
    match v {
        DecoderConfig::Greedy => {
        }
        DecoderConfig::Beam { num_beams } => {
            lemma_dec_str_canonical(num_beams as nat);
            let pre = beam_compact_prefix();
            let dec = dec_str(num_beams as nat);
            let t = decoder_compact(v);
            assert(t == pre + dec + "}"@);
            assert(pre.len() == 27);
            assert(dec.len() >= 1);
            assert(t.len() == 28 + dec.len());
            assert("{\"type\":\"greedy\"}"@.len() == 17);
            assert(t != "{\"type\":\"greedy\"}"@);
            assert(t.subrange(0, 27) =~= pre);
            assert(t.last() == '}');
            assert(t.subrange(27, t.len() - 1) =~= dec);
            assert(dec_val(dec) == num_beams as nat);
            assert(canonical_u32_of(dec) == Some(num_beams));
        }
    }
}

/// Digit characters are not whitespace.
proof fn lemma_digits_not_ws(s: Seq<char>)
    requires
        forall|i: int| 0 <= i < s.len() ==> is_digit_char(#[trigger] s[i]),
    ensures
        forall|i: int| 0 <= i < s.len() ==> !is_ws_char(#[trigger] s[i]),
{
}

/// Stripping the pretty opening of a bare beam decoder leaves its compact
/// opening.
proof fn lemma_strip_decoder_beam_opening()
    ensures
        strip_ws("{\n  \"type\": \"beam\",\n  \"num_beams\": "@) == beam_compact_prefix(),
{
    reveal_strlit("{\n  \"type\": \"beam\",\n  \"num_beams\": ");
    reveal_strlit("{\n  \"type\": \"beam\",\n");
    reveal_strlit("  \"num_beams\": ");
    reveal_strlit("{\"type\":\"beam\",");
    reveal_strlit("\"num_beams\":");
    reveal_strlit("{\"type\":\"beam\",\"num_beams\":");
    assert(strip_ws("{\n  \"type\": \"beam\",\n"@) =~= "{\"type\":\"beam\","@) by {
        reveal_with_fuel(strip_ws, 24);
    }
    assert(strip_ws("  \"num_beams\": "@) =~= "\"num_beams\":"@) by {
        reveal_with_fuel(strip_ws, 24);
    }
    lemma_strip_ws_append("{\n  \"type\": \"beam\",\n"@, "  \"num_beams\": "@);
    assert("{\n  \"type\": \"beam\",\n  \"num_beams\": "@ =~= "{\n  \"type\": \"beam\",\n"@
        + "  \"num_beams\": "@);
    assert(strip_ws("{\n  \"type\": \"beam\",\n  \"num_beams\": "@) =~= beam_compact_prefix());
}

/// Stripping the pretty closing of a bare decoder leaves its closing brace.
proof fn lemma_strip_decoder_closing()
    ensures
        strip_ws("\n}"@) == "}"@,
{
    reveal_strlit("\n}");
    reveal_strlit("}");
    assert(strip_ws("\n}"@) =~= "}"@) by {
        reveal_with_fuel(strip_ws, 4);
    }
}

/// Stripping the pretty greedy decoder text leaves its compact text.
proof fn lemma_strip_decoder_greedy()
    ensures
        strip_ws("{\n  \"type\": \"greedy\"\n}"@) == "{\"type\":\"greedy\"}"@,
{
    reveal_strlit("{\n  \"type\": \"greedy\"\n}");
    reveal_strlit("{\n  \"type\": \"greedy\"");
    reveal_strlit("\n}");
    reveal_strlit("{\"type\":\"greedy\"");
    reveal_strlit("}");
    reveal_strlit("{\"type\":\"greedy\"}");
    assert(strip_ws("{\n  \"type\": \"greedy\""@) =~= "{\"type\":\"greedy\""@) by {
        reveal_with_fuel(strip_ws, 24);
    }
    assert(strip_ws("\n}"@) =~= "}"@) by {
        reveal_with_fuel(strip_ws, 4);
    }
    lemma_strip_ws_append("{\n  \"type\": \"greedy\""@, "\n}"@);
    assert("{\n  \"type\": \"greedy\"\n}"@ =~= "{\n  \"type\": \"greedy\""@ + "\n}"@);
    assert(strip_ws("{\n  \"type\": \"greedy\"\n}"@) =~= "{\"type\":\"greedy\"}"@);
}

/// The compact encoding's opening for a wrapped config, up to the decoder.
pub open spec fn config_compact_prefix() -> Seq<char> {
    "{\"decoder\":"@
}

/// Stripping the pretty opening of a wrapped beam config leaves its compact
/// opening.
proof fn lemma_strip_config_beam_opening()
    ensures
        strip_ws("{\n  \"decoder\": {\n    \"type\": \"beam\",\n    \"num_beams\": "@)
            == config_compact_prefix() + beam_compact_prefix(),
{
    reveal_strlit("{\n  \"decoder\": {\n    \"type\": \"beam\",\n    \"num_beams\": ");
    reveal_strlit("{\n  \"decoder\": {\n");
    reveal_strlit("    \"type\": \"beam\",\n");
    reveal_strlit("    \"num_beams\": ");
    reveal_strlit("{\"decoder\":{");
    reveal_strlit("\"type\":\"beam\",");
    reveal_strlit("\"num_beams\":");
    reveal_strlit("{\"decoder\":");
    reveal_strlit("{\"type\":\"beam\",\"num_beams\":");
    assert(strip_ws("{\n  \"decoder\": {\n"@) =~= "{\"decoder\":{"@) by {
        reveal_with_fuel(strip_ws, 24);
    }
    assert(strip_ws("    \"type\": \"beam\",\n"@) =~= "\"type\":\"beam\","@) by {
        reveal_with_fuel(strip_ws, 24);
    }
    assert(strip_ws("    \"num_beams\": "@) =~= "\"num_beams\":"@) by {
        reveal_with_fuel(strip_ws, 24);
    }
    lemma_strip_ws_append("{\n  \"decoder\": {\n"@, "    \"type\": \"beam\",\n"@);
    lemma_strip_ws_append(
        "{\n  \"decoder\": {\n"@ + "    \"type\": \"beam\",\n"@,
        "    \"num_beams\": "@,
    );
    assert("{\n  \"decoder\": {\n    \"type\": \"beam\",\n    \"num_beams\": "@ =~= (
    "{\n  \"decoder\": {\n"@ + "    \"type\": \"beam\",\n"@) + "    \"num_beams\": "@);
    assert(strip_ws("{\n  \"decoder\": {\n    \"type\": \"beam\",\n    \"num_beams\": "@)
        =~= config_compact_prefix() + beam_compact_prefix());
}

/// Stripping the pretty closing of a wrapped config leaves its two closing
/// braces.
proof fn lemma_strip_config_closing()
    ensures
        strip_ws("\n  }\n}"@) == "}}"@,
{
    reveal_strlit("\n  }\n}");
    reveal_strlit("}}");
    assert(strip_ws("\n  }\n}"@) =~= "}}"@) by {
        reveal_with_fuel(strip_ws, 8);
    }
}

/// Stripping the pretty greedy config text leaves its compact text.
proof fn lemma_strip_config_greedy()
    ensures
        strip_ws("{\n  \"decoder\": {\n    \"type\": \"greedy\"\n  }\n}"@) == config_compact_prefix()
            + "{\"type\":\"greedy\"}"@ + "}"@,
{
    reveal_strlit("}");
    reveal_strlit("{\n  \"decoder\": {\n    \"type\": \"greedy\"\n  }\n}");
    reveal_strlit("{\n  \"decoder\": {\n");
    reveal_strlit("    \"type\": \"greedy\"");
    reveal_strlit("\n  }\n}");
    reveal_strlit("{\"decoder\":{");
    reveal_strlit("\"type\":\"greedy\"");
    reveal_strlit("}}");
    reveal_strlit("{\"decoder\":");
    reveal_strlit("{\"type\":\"greedy\"}");
    assert(strip_ws("{\n  \"decoder\": {\n"@) =~= "{\"decoder\":{"@) by {
        reveal_with_fuel(strip_ws, 24);
    }
    assert(strip_ws("    \"type\": \"greedy\""@) =~= "\"type\":\"greedy\""@) by {
        reveal_with_fuel(strip_ws, 24);
    }
    assert(strip_ws("\n  }\n}"@) =~= "}}"@) by {
        reveal_with_fuel(strip_ws, 8);
    }
    lemma_strip_ws_append("{\n  \"decoder\": {\n"@, "    \"type\": \"greedy\""@);
    lemma_strip_ws_append(
        "{\n  \"decoder\": {\n"@ + "    \"type\": \"greedy\""@,
        "\n  }\n}"@,
    );
    assert("{\n  \"decoder\": {\n    \"type\": \"greedy\"\n  }\n}"@ =~= ("{\n  \"decoder\": {\n"@
        + "    \"type\": \"greedy\""@) + "\n  }\n}"@);
    assert(("{\"decoder\":{"@ + "\"type\":\"greedy\""@) + "}}"@ =~= config_compact_prefix()
        + "{\"type\":\"greedy\"}"@ + "}"@);
    assert(strip_ws("{\n  \"decoder\": {\n    \"type\": \"greedy\"\n  }\n}"@)
        == config_compact_prefix() + "{\"type\":\"greedy\"}"@ + "}"@);
}

impl SupernovaConfig for DecoderConfig {
    open spec fn spec_name() -> Seq<char> {
        "decoder"@
    }

    open spec fn spec_encoding(v: Self) -> Seq<char> {
        match v {
            DecoderConfig::Beam { num_beams } => "{\n  \"type\": \"beam\",\n  \"num_beams\": "@
                + dec_str(num_beams as nat) + "\n}"@,
            DecoderConfig::Greedy => "{\n  \"type\": \"greedy\"\n}"@,
        }
    }

    open spec fn spec_decoding(s: Seq<char>) -> Option<Self> {
        decoder_of_compact(strip_ws(s))
    }

    open spec fn spec_default() -> Option<Self> {
        None
    }

    proof fn lemma_round_trip(v: Self) {
        match v {
            DecoderConfig::Beam { num_beams } => {
                let dec = dec_str(num_beams as nat);
                lemma_dec_str_canonical(num_beams as nat);
                lemma_digits_not_ws(dec);
                lemma_strip_ws_id(dec);
                lemma_strip_decoder_beam_opening();
                lemma_strip_decoder_closing();
                lemma_strip_ws_append("{\n  \"type\": \"beam\",\n  \"num_beams\": "@, dec);
                lemma_strip_ws_append(
                    "{\n  \"type\": \"beam\",\n  \"num_beams\": "@ + dec,
                    "\n}"@,
                );
                assert(Self::spec_encoding(v) == ("{\n  \"type\": \"beam\",\n  \"num_beams\": "@
                    + dec) + "\n}"@);
                assert(strip_ws(Self::spec_encoding(v)) =~= beam_compact_prefix() + dec + "}"@);
                lemma_decoder_compact_round_trip(v);
            }
            DecoderConfig::Greedy => {
                lemma_strip_decoder_greedy();
                lemma_decoder_compact_round_trip(v);
            }
        }
    }

    fn config_name() -> (r: String) {
        String::from_str("decoder")
    }

    fn encode(&self) -> (r: String) {
        match self {
            DecoderConfig::Beam { num_beams } => {
                let mut r = String::from_str("{\n  \"type\": \"beam\",\n  \"num_beams\": ");
                let digits = u32_to_decimal(*num_beams);
                r.append(digits.as_str());
                r.append("\n}");
                proof {
                    assert(r@ =~= Self::spec_encoding(*self));
                }
                r
            }
            DecoderConfig::Greedy => String::from_str("{\n  \"type\": \"greedy\"\n}"),
        }
    }

    fn decode(s: &str) -> (r: Option<Self>) {
        let t = strip_chars(s);
        decoder_of_compact_exec(&t)
    }

    fn default_value() -> (r: Option<Self>) {
        None
    }
}

impl SupernovaConfig for SupernovaDecodeConfig {
    open spec fn spec_name() -> Seq<char> {
        "decode"@
    }

    open spec fn spec_encoding(v: Self) -> Seq<char> {
        match v.decoder {
            DecoderConfig::Beam { num_beams } =>
            "{\n  \"decoder\": {\n    \"type\": \"beam\",\n    \"num_beams\": "@ + dec_str(
                num_beams as nat,
            ) + "\n  }\n}"@,
            DecoderConfig::Greedy => "{\n  \"decoder\": {\n    \"type\": \"greedy\"\n  }\n}"@,
        }
    }

    open spec fn spec_decoding(s: Seq<char>) -> Option<Self> {
        let t = strip_ws(s);
        if t.len() > config_compact_prefix().len() + 1 && t.subrange(
            0,
            config_compact_prefix().len() as int,
        ) == config_compact_prefix() && t.last() == '}' {
            match decoder_of_compact(
                t.subrange(config_compact_prefix().len() as int, t.len() - 1),
            ) {
                Some(d) => Some(SupernovaDecodeConfig { decoder: d }),
                None => None,
            }
        } else {
            None
        }
    }

    open spec fn spec_default() -> Option<Self> {
        Some(SupernovaDecodeConfig { decoder: DecoderConfig::Beam { num_beams: 4 } })
    }

    proof fn lemma_round_trip(v: Self) {
        reveal_strlit("{\"decoder\":");
        reveal_strlit("{\"type\":\"greedy\"}");
        reveal_strlit("{\"type\":\"beam\",\"num_beams\":");
        reveal_strlit("}");
        let w = config_compact_prefix();
        assert(w.len() == 11);
        match v.decoder {
            DecoderConfig::Beam { num_beams } => {
                let dec = dec_str(num_beams as nat);
                lemma_dec_str_canonical(num_beams as nat);
                lemma_digits_not_ws(dec);
                lemma_strip_ws_id(dec);
                lemma_strip_config_beam_opening();
                lemma_strip_config_closing();
                lemma_strip_ws_append(
                    "{\n  \"decoder\": {\n    \"type\": \"beam\",\n    \"num_beams\": "@,
                    dec,
                );
                lemma_strip_ws_append(
                    "{\n  \"decoder\": {\n    \"type\": \"beam\",\n    \"num_beams\": "@ + dec,
                    "\n  }\n}"@,
                );
                assert(Self::spec_encoding(v) == (
                "{\n  \"decoder\": {\n    \"type\": \"beam\",\n    \"num_beams\": "@ + dec)
                    + "\n  }\n}"@);
                let t = strip_ws(Self::spec_encoding(v));
                assert(t == ((w + beam_compact_prefix()) + dec) + "}}"@);
                reveal_strlit("}}");
                assert(t =~= w + decoder_compact(v.decoder) + "}"@);
                assert(decoder_compact(v.decoder).len() >= 29);
                assert(t.subrange(0, 11) =~= w);
                assert(t.last() == '}');
                assert(t.subrange(11, t.len() - 1) =~= decoder_compact(v.decoder));
                lemma_decoder_compact_round_trip(v.decoder);
                assert(v == (SupernovaDecodeConfig { decoder: v.decoder }));
            }
            DecoderConfig::Greedy => {
                lemma_strip_config_greedy();
                let t = strip_ws(Self::spec_encoding(v));
                assert(t == w + "{\"type\":\"greedy\"}"@ + "}"@);
                assert(t.len() == 11 + 17 + 1);
                assert(t.subrange(0, 11) =~= w);
                assert(t.last() == '}');
                assert(t.subrange(11, t.len() - 1) =~= "{\"type\":\"greedy\"}"@);
                lemma_decoder_compact_round_trip(v.decoder);
                assert(v == (SupernovaDecodeConfig { decoder: v.decoder }));
            }
        }
    }

    fn config_name() -> (r: String) {
        String::from_str("decode")
    }

    fn encode(&self) -> (r: String) {
        match self.decoder {
            DecoderConfig::Beam { num_beams } => {
                let mut r = String::from_str(
                    "{\n  \"decoder\": {\n    \"type\": \"beam\",\n    \"num_beams\": ",
                );
                let digits = u32_to_decimal(num_beams);
                r.append(digits.as_str());
                r.append("\n  }\n}");
                proof {
                    assert(r@ =~= Self::spec_encoding(*self));
                }
                r
            }
            DecoderConfig::Greedy => String::from_str(
                "{\n  \"decoder\": {\n    \"type\": \"greedy\"\n  }\n}",
            ),
        }
    }

    fn decode(s: &str) -> (r: Option<Self>) {
        let t = strip_chars(s);
        let pre = str_chars("{\"decoder\":");
        proof {
            reveal_strlit("{\"decoder\":");
        }
        if t.len() > pre.len() + 1 && has_char_prefix(&t, &pre) && t[t.len() - 1] == '}' {
            let inner = char_sub(&t, pre.len(), t.len() - 1);
            match decoder_of_compact_exec(&inner) {
                Some(d) => Some(SupernovaDecodeConfig { decoder: d }),
                None => None,
            }
        } else {
            None
        }
    }

    fn default_value() -> (r: Option<Self>) {
        Some(SupernovaDecodeConfig { decoder: DecoderConfig::Beam { num_beams: 4 } })
    }
}

} // verus!
