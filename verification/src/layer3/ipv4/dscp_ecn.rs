//! Byte 1 of the IPv4 header: the Differentiated Services field, split
//! into DSCP (6 bits) and ECN (2 bits). RFC 791 called it "Type of
//! Service"; RFC 2474 redefined it.

use vstd::prelude::*;

use crate::text::dec_char;

verus! {

/// The IANA registry name of a DSCP codepoint: the class selectors
/// CS0 to CS7, the assured forwarding classes AF11 to AF43, EF,
/// VOICE-ADMIT and LE; "Unknown" for a codepoint the registry does not
/// assign.
pub open spec fn spec_dscp_name(dscp_value: u8) -> Seq<char> {
    if dscp_value == 0 {
        "CS0"@
    } else if dscp_value == 1 {
        "LE"@
    } else if dscp_value == 8 {
        "CS1"@
    } else if dscp_value == 10 {
        "AF11"@
    } else if dscp_value == 12 {
        "AF12"@
    } else if dscp_value == 14 {
        "AF13"@
    } else if dscp_value == 16 {
        "CS2"@
    } else if dscp_value == 18 {
        "AF21"@
    } else if dscp_value == 20 {
        "AF22"@
    } else if dscp_value == 22 {
        "AF23"@
    } else if dscp_value == 24 {
        "CS3"@
    } else if dscp_value == 26 {
        "AF31"@
    } else if dscp_value == 28 {
        "AF32"@
    } else if dscp_value == 30 {
        "AF33"@
    } else if dscp_value == 32 {
        "CS4"@
    } else if dscp_value == 34 {
        "AF41"@
    } else if dscp_value == 36 {
        "AF42"@
    } else if dscp_value == 38 {
        "AF43"@
    } else if dscp_value == 40 {
        "CS5"@
    } else if dscp_value == 44 {
        "VOICE-ADMIT"@
    } else if dscp_value == 46 {
        "EF"@
    } else if dscp_value == 48 {
        "CS6"@
    } else if dscp_value == 56 {
        "CS7"@
    } else {
        "Unknown"@
    }
}

/// The RFC 3168 keyword of an ECN value.
pub open spec fn spec_ecn_keyword(ecn_value: u8) -> Seq<char> {
    if ecn_value == 0 {
        "Not-ECT"@
    } else if ecn_value == 1 {
        "ECT(1)"@
    } else if ecn_value == 2 {
        "ECT(0)"@
    } else if ecn_value == 3 {
        "CE"@
    } else {
        "Unknown"@
    }
}

/// Maps a DSCP codepoint (0..=63) to its IANA registry name (`CS0`, `EF`,
/// `AF41`, ...); codepoints the registry does not assign give "Unknown".
pub fn dscp_name(dscp_value: u8) -> (name: &'static str)
    ensures
        name@ == spec_dscp_name(dscp_value),
{
    match dscp_value {
        0 => "CS0",
        1 => "LE",
        8 => "CS1",
        10 => "AF11",
        12 => "AF12",
        14 => "AF13",
        16 => "CS2",
        18 => "AF21",
        20 => "AF22",
        22 => "AF23",
        24 => "CS3",
        26 => "AF31",
        28 => "AF32",
        30 => "AF33",
        32 => "CS4",
        34 => "AF41",
        36 => "AF42",
        38 => "AF43",
        40 => "CS5",
        44 => "VOICE-ADMIT",
        46 => "EF",
        48 => "CS6",
        56 => "CS7",
        _ => "Unknown",
    }
}

/// Maps the 2-bit ECN value (0..=3) to its RFC 3168 keyword.
pub fn ecn_keyword(ecn_value: u8) -> (keyword: &'static str)
    ensures
        keyword@ == spec_ecn_keyword(ecn_value),
{
    match ecn_value {
        0 => "Not-ECT",  // Not ECN-Capable Transport
        1 => "ECT(1)",  // ECN-Capable Transport(1)
        2 => "ECT(0)",  // ECN-Capable Transport(0)
        3 => "CE",  // Congestion Experienced
        _ => "Unknown",
    }
}

/// The ECN keyword of a value is that of RFC 3168: "Not-ECT" exactly for
/// 0, "ECT(1)" exactly for 1, "ECT(0)" exactly for 2, "CE" exactly for 3,
/// and "Unknown" for values beyond the two bits.
pub proof fn lemma_ecn_keyword_is_its_codepoint(v: u8)
    ensures
        spec_ecn_keyword(v) == "Not-ECT"@ <==> v == 0,
        spec_ecn_keyword(v) == "ECT(1)"@ <==> v == 1,
        spec_ecn_keyword(v) == "ECT(0)"@ <==> v == 2,
        spec_ecn_keyword(v) == "CE"@ <==> v == 3,
        spec_ecn_keyword(v) == "Unknown"@ <==> v > 3,
{
    reveal_strlit("Not-ECT");
    reveal_strlit("ECT(1)");
    reveal_strlit("ECT(0)");
    reveal_strlit("CE");
    reveal_strlit("Unknown");
    assert("Not-ECT"@.len() == 7 && "ECT(1)"@.len() == 6 && "ECT(0)"@.len() == 6);
    assert("CE"@.len() == 2 && "Unknown"@.len() == 7);
    assert("ECT(1)"@[4] != "ECT(0)"@[4]);
    assert("Not-ECT"@[0] != "Unknown"@[0]);
}

/// A DSCP codepoint is assigned when the registry names it: a class
/// selector (a multiple of 8), an assured forwarding codepoint (class 1 to
/// 4 in the top three bits, drop precedence 1 to 3 in the next two, low
/// bit clear), EF (46), VOICE-ADMIT (44) or LE (1).
pub open spec fn dscp_is_assigned(v: u8) -> bool {
    ||| v < 64 && v % 8 == 0
    ||| 1 <= v / 8 <= 4 && v % 8 != 0 && v % 2 == 0
    ||| v == 46 || v == 44 || v == 1
}

/// DSCP names follow the registry's naming rule: class selector `n` (the
/// codepoint 8n) is "CSn"; assured forwarding class `x`, drop precedence
/// `y` (the codepoint 8x + 2y) is "AFxy"; EF, VOICE-ADMIT and LE name
/// exactly 46, 44 and 1; "Unknown" names exactly the unassigned
/// codepoints.
pub proof fn lemma_dscp_names_follow_the_registry(v: u8)
    ensures
        v < 64 && v % 8 == 0 ==> spec_dscp_name(v) == "CS"@ + seq![dec_char((v / 8) as nat)],
        1 <= v / 8 <= 4 && v % 8 != 0 && v % 2 == 0 ==> spec_dscp_name(v) == "AF"@ + seq![
            dec_char((v / 8) as nat),
            dec_char(((v % 8) / 2) as nat),
        ],
        spec_dscp_name(v) == "EF"@ <==> v == 46,
        spec_dscp_name(v) == "VOICE-ADMIT"@ <==> v == 44,
        spec_dscp_name(v) == "LE"@ <==> v == 1,
        spec_dscp_name(v) == "Unknown"@ <==> !dscp_is_assigned(v),
{
    reveal_strlit("CS0");
    reveal_strlit("CS1");
    reveal_strlit("CS2");
    reveal_strlit("CS3");
    reveal_strlit("CS4");
    reveal_strlit("CS5");
    reveal_strlit("CS6");
    reveal_strlit("CS7");
    reveal_strlit("AF11");
    reveal_strlit("AF12");
    reveal_strlit("AF13");
    reveal_strlit("AF21");
    reveal_strlit("AF22");
    reveal_strlit("AF23");
    reveal_strlit("AF31");
    reveal_strlit("AF32");
    reveal_strlit("AF33");
    reveal_strlit("AF41");
    reveal_strlit("AF42");
    reveal_strlit("AF43");
    reveal_strlit("EF");
    reveal_strlit("VOICE-ADMIT");
    reveal_strlit("LE");
    reveal_strlit("Unknown");
    reveal_strlit("CS");
    reveal_strlit("AF");
    assert("CS"@ =~= seq!['C', 'S']);
    assert("AF"@ =~= seq!['A', 'F']);
    assert("CS0"@ =~= seq!['C', 'S', '0']);
    assert("CS1"@ =~= seq!['C', 'S', '1']);
    assert("CS2"@ =~= seq!['C', 'S', '2']);
    assert("CS3"@ =~= seq!['C', 'S', '3']);
    assert("CS4"@ =~= seq!['C', 'S', '4']);
    assert("CS5"@ =~= seq!['C', 'S', '5']);
    assert("CS6"@ =~= seq!['C', 'S', '6']);
    assert("CS7"@ =~= seq!['C', 'S', '7']);
    assert("AF11"@ =~= seq!['A', 'F', '1', '1']);
    assert("AF12"@ =~= seq!['A', 'F', '1', '2']);
    assert("AF13"@ =~= seq!['A', 'F', '1', '3']);
    assert("AF21"@ =~= seq!['A', 'F', '2', '1']);
    assert("AF22"@ =~= seq!['A', 'F', '2', '2']);
    assert("AF23"@ =~= seq!['A', 'F', '2', '3']);
    assert("AF31"@ =~= seq!['A', 'F', '3', '1']);
    assert("AF32"@ =~= seq!['A', 'F', '3', '2']);
    assert("AF33"@ =~= seq!['A', 'F', '3', '3']);
    assert("AF41"@ =~= seq!['A', 'F', '4', '1']);
    assert("AF42"@ =~= seq!['A', 'F', '4', '2']);
    assert("AF43"@ =~= seq!['A', 'F', '4', '3']);
    assert("EF"@ =~= seq!['E', 'F']);
    assert("VOICE-ADMIT"@ =~= seq!['V', 'O', 'I', 'C', 'E', '-', 'A', 'D', 'M', 'I', 'T']);
    assert("LE"@ =~= seq!['L', 'E']);
    assert("Unknown"@ =~= seq!['U', 'n', 'k', 'n', 'o', 'w', 'n']);
}

} // verus!
