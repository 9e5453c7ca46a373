//! The reference table of locale codes.
//!
//! Besides the table the module proves two facts of it: every code has the
//! form `language-REGION`, and no code occurs twice. Both are read off the
//! entries one by one. That no two codes are equal is shown without comparing
//! each with each: `BY_KEY` lists the positions of the table so that a
//! numeric key of the codes grows from entry to entry, and `PLACE` shows that
//! it lists every position.

use vstd::prelude::*;

verus! {

/// The number of locale codes in the reference table.
pub const LOCALE_COUNT: usize = 377;

/// The known `language-REGION` codes, in the order in which they are listed.
pub const LOCALE_CODES: [&'static str; 377] = [
    "aa-ER", "af-NA", "af-ZA", "am-ET", "ar-EG", "ar-DZ", "ar-BH", "ar-DJ", "ar-ER", "ar-IQ",
    "ar-IL", "ar-YE", "ar-JO", "ar-QA", "ar-KM", "ar-KW", "ar-LB", "ar-LY", "ar-MA", "ar-MR",
    "ar-OM", "ar-PS", "ar-SA", "ar-SO", "ar-SD", "ar-SY", "ar-TD", "ar-TN", "ar-AE", "ay-BO",
    "az-AZ", "be-BY", "bn-BD", "bi-VU", "bs-BA", "bs-ME", "bg-BG", "byn-ER", "ca-AD", "cs-CZ",
    "ch-GU", "ch-MP", "da-DK", "de-BE", "de-DE", "de-LI", "de-LU", "de-AT", "de-CH", "de-VA",
    "dv-MV", "dz-BT", "el-GR", "el-CY", "en-AS", "en-AI", "en-AQ", "en-AG", "en-AU", "en-BS",
    "en-BB", "en-BZ", "en-BM", "en-BW", "en-IO", "en-CK", "en-CW", "en-DM", "en-ER", "en-SZ",
    "en-FK", "en-FJ", "en-FM", "en-GM", "en-GH", "en-GI", "en-GD", "en-GU", "en-GG", "en-GY",
    "en-HM", "en-HK", "en-IN", "en-IM", "en-IE", "en-JM", "en-JE", "en-VG", "en-VI", "en-KY",
    "en-CM", "en-CA", "en-KE", "en-KI", "en-UM", "en-CC", "en-LS", "en-LR", "en-MW", "en-MT",
    "en-MH", "en-MU", "en-MS", "en-NA", "en-NR", "en-NZ", "en-NG", "en-NU", "en-MP", "en-NF",
    "en-PK", "en-PW", "en-PG", "en-PH", "en-PN", "en-PR", "en-RW", "en-MF", "en-SB", "en-ZM",
    "en-WS", "en-SC", "en-SL", "en-ZW", "en-SG", "en-SX", "en-SH", "en-KN", "en-LC", "en-VC",
    "en-ZA", "en-SD", "en-GS", "en-SS", "en-TZ", "en-TK", "en-TO", "en-TT", "en-TC", "en-TV",
    "en-UG", "en-VU", "en-US", "en-GB", "en-CX", "et-EE", "fan-GQ", "fo-FO", "fa-IR", "fj-FJ",
    "fi-FI", "fr-GQ", "fr-BE", "fr-BJ", "fr-BF", "fr-BI", "fr-CD", "fr-DJ", "fr-CI", "fr-FR",
    "fr-GF", "fr-PF", "fr-TF", "fr-MC", "fr-GA", "fr-GP", "fr-GG", "fr-GN", "fr-HT", "fr-JE",
    "fr-CM", "fr-CA", "fr-KM", "fr-LB", "fr-LU", "fr-MG", "fr-ML", "fr-MQ", "fr-YT", "fr-NC",
    "fr-NE", "fr-CG", "fr-RE", "fr-RW", "fr-MF", "fr-BL", "fr-CH", "fr-SN", "fr-SC", "fr-PM",
    "fr-TG", "fr-TD", "fr-VU", "fr-VA", "fr-WF", "fr-CF", "ff-BF", "ff-GN", "ga-IE", "gv-IM",
    "gn-AR", "gn-PY", "ht-HT", "he-IL", "hif-FJ", "hi-IN", "hr-BA", "hr-HR", "hr-ME", "hu-HU",
    "hy-AM", "hy-CY", "id-ID", "is-IS", "it-IT", "it-SM", "it-CH", "it-VA", "ja-JP", "kl-GL",
    "ka-GE", "kk-KZ", "km-KH", "rw-RW", "ky-KG", "kg-CD", "ko-KP", "ko-KR", "kun-ER", "ku-IQ",
    "lo-LA", "la-VA", "lv-LV", "ln-CD", "ln-CG", "lt-LT", "lb-LU", "lu-CD", "mh-MH", "mk-MK",
    "mg-MG", "mt-MT", "mn-MN", "mi-NZ", "ms-BN", "ms-SG", "my-MM", "na-NR", "nr-ZA", "nd-ZW",
    "ne-NP", "nl-AW", "nl-BE", "nl-CW", "nl-BQ", "nl-NL", "nl-MF", "nl-SX", "nl-SR", "nn-BV",
    "nn-NO", "nb-BV", "nb-NO", "no-BV", "no-NO", "no-SJ", "nrb-ER", "ny-MW", "pa-AW", "pa-CW",
    "pl-PL", "pt-AO", "pt-GQ", "pt-BR", "pt-GW", "pt-CV", "pt-MO", "pt-MZ", "pt-TL", "pt-PT",
    "pt-ST", "ps-AF", "qu-BO", "rar-CK", "rm-CH", "ro-MD", "ro-RO", "rtm-FJ", "rn-BI", "ru-AQ",
    "ru-BY", "ru-KZ", "ru-KG", "ru-RU", "ru-TJ", "ru-TM", "ru-UZ", "sg-CF", "si-LK", "sk-SK",
    "sk-CZ", "sl-SI", "sm-AS", "sm-WS", "sn-ZW", "so-SO", "st-LS", "st-ZA", "es-GQ", "es-AR",
    "es-BZ", "es-BO", "es-CL", "es-CR", "es-DO", "es-EC", "es-SV", "es-GU", "es-GT", "es-HN",
    "es-CO", "es-CU", "es-MX", "es-NI", "es-PA", "es-PY", "es-PE", "es-PR", "es-ES", "es-UY",
    "es-VE", "es-EH", "sq-AL", "sq-XK", "sq-ME", "sr-BA", "sr-XK", "sr-ME", "sr-RS", "ss-SZ",
    "ss-ZA", "ssy-ER", "sw-CD", "sw-KE", "sw-TZ", "sw-UG", "sv-AX", "sv-FI", "sv-SE", "ta-SG",
    "ta-LK", "tg-TJ", "th-TH", "tig-ER", "ti-ER", "to-TO", "tn-BW", "tn-ZA", "ts-ZA", "tk-AF",
    "tk-TM", "tr-TR", "tr-CY", "uk-UA", "ur-PK", "uz-AF", "uz-UZ", "ve-ZA", "vi-VN", "xh-ZA",
    "zh-CN", "zh-HK", "zh-MO", "zh-SG", "zh-TW", "ms-MY", "zu-ZA",
];

/// The code at position `i` of the table.
#[verifier::opaque]
pub open spec fn locale_code(i: int) -> Seq<char> {
    LOCALE_CODES@[i]@
}

/// Whether `s` is, character for character, one of the codes in the table.
pub open spec fn is_known_locale(s: Seq<char>) -> bool {
    exists|i: int| 0 <= i < LOCALE_COUNT && locale_code(i) == s
}

/// Whether `c` is a lower-case ASCII letter.
pub open spec fn is_lower_letter(c: char) -> bool {
    'a' <= c && c <= 'z'
}

/// Whether `c` is an upper-case ASCII letter.
pub open spec fn is_upper_letter(c: char) -> bool {
    'A' <= c && c <= 'Z'
}

/// The form of every code in the table: a language of two or three lower-case
/// letters, a hyphen, and a region of two upper-case letters.
pub open spec fn is_language_region(s: Seq<char>) -> bool {
    ||| {
        &&& s.len() == 5
        &&& is_lower_letter(s[0])
        &&& is_lower_letter(s[1])
        &&& s[2] == '-'
        &&& is_upper_letter(s[3])
        &&& is_upper_letter(s[4])
    }
    ||| {
        &&& s.len() == 6
        &&& is_lower_letter(s[0])
        &&& is_lower_letter(s[1])
        &&& is_lower_letter(s[2])
        &&& s[3] == '-'
        &&& is_upper_letter(s[4])
        &&& is_upper_letter(s[5])
    }
}

/// The positions of the table, by ascending `sort_key` of their codes.
const BY_KEY: [u16; 377] = [
    0, 1, 2, 3, 28, 6, 7, 5, 4, 8, 10, 9, 12, 14, 15, 16, 17, 18, 19, 20, 21, 13, 22, 24, 23,
    25, 26, 27, 11, 29, 30, 31, 36, 33, 32, 34, 35, 37, 38, 40, 41, 39, 42, 47, 43, 48, 44, 45,
    46, 49, 50, 51, 53, 52, 57, 55, 56, 54, 58, 60, 62, 59, 63, 61, 91, 95, 65, 90, 66, 144, 67,
    68, 71, 70, 72, 143, 76, 78, 74, 75, 73, 132, 77, 79, 81, 80, 84, 83, 82, 64, 86, 85, 92,
    93, 127, 89, 128, 97, 96, 117, 100, 108, 102, 99, 101, 98, 103, 109, 106, 104, 107, 105,
    112, 113, 110, 114, 115, 111, 116, 118, 121, 131, 124, 126, 122, 133, 125, 69, 138, 135,
    136, 137, 139, 134, 140, 94, 142, 129, 87, 88, 141, 120, 130, 119, 123, 309, 311, 310, 312,
    320, 313, 321, 314, 315, 331, 328, 308, 318, 317, 319, 322, 323, 324, 326, 327, 325, 316,
    329, 330, 145, 148, 146, 196, 197, 150, 149, 147, 152, 154, 155, 153, 185, 171, 156, 195,
    181, 186, 158, 170, 157, 159, 164, 160, 166, 167, 165, 151, 168, 169, 172, 173, 174, 163,
    184, 175, 176, 177, 179, 180, 161, 189, 182, 183, 188, 187, 191, 162, 190, 193, 192, 194,
    178, 198, 200, 201, 199, 203, 205, 204, 206, 207, 208, 202, 209, 210, 211, 212, 213, 216,
    214, 215, 217, 218, 220, 225, 221, 219, 222, 226, 227, 229, 228, 224, 231, 236, 233, 234,
    230, 235, 237, 232, 240, 238, 243, 239, 242, 244, 375, 245, 241, 246, 247, 261, 262, 249,
    250, 251, 252, 254, 253, 256, 255, 258, 257, 259, 260, 263, 264, 265, 248, 266, 267, 268,
    269, 270, 281, 271, 273, 275, 272, 274, 276, 277, 279, 280, 278, 282, 283, 284, 288, 285,
    286, 287, 289, 290, 292, 291, 293, 294, 295, 296, 223, 297, 298, 300, 299, 301, 302, 303,
    304, 305, 332, 334, 333, 335, 337, 338, 336, 339, 340, 341, 306, 307, 346, 347, 348, 342,
    343, 344, 345, 350, 349, 351, 352, 354, 353, 359, 360, 356, 357, 355, 362, 361, 358, 363,
    364, 365, 366, 367, 368, 369, 370, 371, 372, 373, 374, 376,
];

/// For each position of the table, where `BY_KEY` holds it.
const PLACE: [u16; 377] = [
    0, 1, 2, 3, 8, 7, 5, 6, 9, 11, 10, 28, 12, 21, 13, 14, 15, 16, 17, 18, 19, 20, 22, 24, 23,
    25, 26, 27, 4, 29, 30, 31, 34, 33, 35, 36, 32, 37, 38, 41, 39, 40, 42, 44, 46, 47, 48, 43,
    45, 49, 50, 51, 53, 52, 57, 55, 56, 54, 58, 61, 59, 63, 60, 62, 89, 66, 68, 70, 71, 127, 73,
    72, 74, 80, 78, 79, 76, 82, 77, 83, 85, 84, 88, 87, 86, 91, 90, 138, 139, 95, 67, 64, 92,
    93, 135, 65, 98, 97, 105, 103, 100, 104, 102, 106, 109, 111, 108, 110, 101, 107, 114, 117,
    112, 113, 115, 116, 118, 99, 119, 143, 141, 120, 124, 144, 122, 126, 123, 94, 96, 137, 142,
    121, 81, 125, 133, 129, 130, 131, 128, 132, 134, 140, 136, 75, 69, 169, 171, 176, 170, 175,
    174, 196, 177, 180, 178, 179, 183, 189, 187, 190, 192, 209, 216, 202, 191, 195, 193, 194,
    197, 198, 188, 182, 199, 200, 201, 204, 205, 206, 221, 207, 208, 185, 211, 212, 203, 181,
    186, 214, 213, 210, 217, 215, 219, 218, 220, 184, 172, 173, 222, 225, 223, 224, 232, 226,
    228, 227, 229, 230, 231, 233, 234, 235, 236, 237, 239, 240, 238, 241, 242, 246, 243, 245,
    247, 321, 252, 244, 248, 249, 251, 250, 257, 253, 260, 255, 256, 258, 254, 259, 262, 264,
    261, 269, 265, 263, 266, 268, 270, 271, 289, 274, 275, 276, 277, 279, 278, 281, 280, 283,
    282, 284, 285, 272, 273, 286, 287, 288, 290, 291, 292, 293, 294, 296, 299, 297, 300, 298,
    301, 302, 305, 303, 304, 295, 306, 307, 308, 310, 311, 312, 309, 313, 314, 316, 315, 317,
    318, 319, 320, 322, 323, 325, 324, 326, 327, 328, 329, 330, 341, 342, 156, 145, 147, 146,
    148, 150, 152, 153, 166, 158, 157, 159, 149, 151, 160, 161, 162, 165, 163, 164, 155, 167,
    168, 154, 331, 333, 332, 334, 337, 335, 336, 338, 339, 340, 346, 347, 348, 349, 343, 344,
    345, 351, 350, 352, 353, 355, 354, 360, 358, 359, 363, 356, 357, 362, 361, 364, 365, 366,
    367, 368, 369, 370, 371, 372, 373, 374, 375, 267, 376,
];

/// The position of the table that `BY_KEY` holds at `k`.
#[verifier::opaque]
spec fn by_key(k: int) -> int {
    BY_KEY@[k] as int
}

/// Where `BY_KEY` holds position `i` of the table.
#[verifier::opaque]
spec fn place(i: int) -> int {
    PLACE@[i] as int
}

/// The character of `s` at `k`, as a number; zero past the end.
spec fn digit(s: Seq<char>, k: int) -> int {
    if 0 <= k < s.len() {
        s[k] as int
    } else {
        0
    }
}

/// The first six characters of `s`, read as a number in base 128.
#[verifier::opaque]
spec fn sort_key(s: Seq<char>) -> int {
    ((((digit(s, 0) * 128 + digit(s, 1)) * 128 + digit(s, 2)) * 128 + digit(s, 3)) * 128 + digit(
        s,
        4,
    )) * 128 + digit(s, 5)
}

/// Whether `i` is one of the numbers `0`, ..., `n - 1`, written as a
/// disjunction that the solver can split on.
spec fn one_of_first(i: int, n: nat) -> bool
    decreases n,
{
    n > 0 && (i == n - 1 || one_of_first(i, (n - 1) as nat))
}

/// Each of the numbers `0`, ..., `n - 1` is one of the first `n`.
proof fn lemma_one_of_first(i: int, n: nat)
    requires
        0 <= i < n,
    ensures
        one_of_first(i, n),
    decreases n,
{
    if i != n - 1 {
        lemma_one_of_first(i, (n - 1) as nat);
    }
}

/// The key of the code that `BY_KEY` holds at `k`.
#[verifier::opaque]
spec fn key_at(k: int) -> int {
    sort_key(locale_code(by_key(k)))
}

/// What the table holds, read entry by entry: each code has the form
/// `language-REGION`, and from one entry of `BY_KEY` to the next the key grows.
#[verifier::rlimit(100)]
proof fn lemma_entries(k: int)
    requires
        0 <= k < 377,
    ensures
        is_language_region(locale_code(k)),
        k < 376 ==> key_at(k) < key_at(k + 1),
{
    lemma_one_of_first(k, 377);
    reveal_with_fuel(one_of_first, 378);
    reveal(by_key);
    reveal(locale_code);
    reveal(key_at);
    reveal(sort_key);
    reveal_strlit("aa-ER");
    reveal_strlit("af-NA");
    reveal_strlit("af-ZA");
    reveal_strlit("am-ET");
    reveal_strlit("ar-EG");
    reveal_strlit("ar-DZ");
    reveal_strlit("ar-BH");
    reveal_strlit("ar-DJ");
    reveal_strlit("ar-ER");
    reveal_strlit("ar-IQ");
    reveal_strlit("ar-IL");
    reveal_strlit("ar-YE");
    reveal_strlit("ar-JO");
    reveal_strlit("ar-QA");
    reveal_strlit("ar-KM");
    reveal_strlit("ar-KW");
    reveal_strlit("ar-LB");
    reveal_strlit("ar-LY");
    reveal_strlit("ar-MA");
    reveal_strlit("ar-MR");
    reveal_strlit("ar-OM");
    reveal_strlit("ar-PS");
    reveal_strlit("ar-SA");
    reveal_strlit("ar-SO");
    reveal_strlit("ar-SD");
    reveal_strlit("ar-SY");
    reveal_strlit("ar-TD");
    reveal_strlit("ar-TN");
    reveal_strlit("ar-AE");
    reveal_strlit("ay-BO");
    reveal_strlit("az-AZ");
    reveal_strlit("be-BY");
    reveal_strlit("bn-BD");
    reveal_strlit("bi-VU");
    reveal_strlit("bs-BA");
    reveal_strlit("bs-ME");
    reveal_strlit("bg-BG");
    reveal_strlit("byn-ER");
    reveal_strlit("ca-AD");
    reveal_strlit("cs-CZ");
    reveal_strlit("ch-GU");
    reveal_strlit("ch-MP");
    reveal_strlit("da-DK");
    reveal_strlit("de-BE");
    reveal_strlit("de-DE");
    reveal_strlit("de-LI");
    reveal_strlit("de-LU");
    reveal_strlit("de-AT");
    reveal_strlit("de-CH");
    reveal_strlit("de-VA");
    reveal_strlit("dv-MV");
    reveal_strlit("dz-BT");
    reveal_strlit("el-GR");
    reveal_strlit("el-CY");
    reveal_strlit("en-AS");
    reveal_strlit("en-AI");
    reveal_strlit("en-AQ");
    reveal_strlit("en-AG");
    reveal_strlit("en-AU");
    reveal_strlit("en-BS");
    reveal_strlit("en-BB");
    reveal_strlit("en-BZ");
    reveal_strlit("en-BM");
    reveal_strlit("en-BW");
    reveal_strlit("en-IO");
    reveal_strlit("en-CK");
    reveal_strlit("en-CW");
    reveal_strlit("en-DM");
    reveal_strlit("en-ER");
    reveal_strlit("en-SZ");
    reveal_strlit("en-FK");
    reveal_strlit("en-FJ");
    reveal_strlit("en-FM");
    reveal_strlit("en-GM");
    reveal_strlit("en-GH");
    reveal_strlit("en-GI");
    reveal_strlit("en-GD");
    reveal_strlit("en-GU");
    reveal_strlit("en-GG");
    reveal_strlit("en-GY");
    reveal_strlit("en-HM");
    reveal_strlit("en-HK");
    reveal_strlit("en-IN");
    reveal_strlit("en-IM");
    reveal_strlit("en-IE");
    reveal_strlit("en-JM");
    reveal_strlit("en-JE");
    reveal_strlit("en-VG");
    reveal_strlit("en-VI");
    reveal_strlit("en-KY");
    reveal_strlit("en-CM");
    reveal_strlit("en-CA");
    reveal_strlit("en-KE");
    reveal_strlit("en-KI");
    reveal_strlit("en-UM");
    reveal_strlit("en-CC");
    reveal_strlit("en-LS");
    reveal_strlit("en-LR");
    reveal_strlit("en-MW");
    reveal_strlit("en-MT");
    reveal_strlit("en-MH");
    reveal_strlit("en-MU");
    reveal_strlit("en-MS");
    reveal_strlit("en-NA");
    reveal_strlit("en-NR");
    reveal_strlit("en-NZ");
    reveal_strlit("en-NG");
    reveal_strlit("en-NU");
    reveal_strlit("en-MP");
    reveal_strlit("en-NF");
    reveal_strlit("en-PK");
    reveal_strlit("en-PW");
    reveal_strlit("en-PG");
    reveal_strlit("en-PH");
    reveal_strlit("en-PN");
    reveal_strlit("en-PR");
    reveal_strlit("en-RW");
    reveal_strlit("en-MF");
    reveal_strlit("en-SB");
    reveal_strlit("en-ZM");
    reveal_strlit("en-WS");
    reveal_strlit("en-SC");
    reveal_strlit("en-SL");
    reveal_strlit("en-ZW");
    reveal_strlit("en-SG");
    reveal_strlit("en-SX");
    reveal_strlit("en-SH");
    reveal_strlit("en-KN");
    reveal_strlit("en-LC");
    reveal_strlit("en-VC");
    reveal_strlit("en-ZA");
    reveal_strlit("en-SD");
    reveal_strlit("en-GS");
    reveal_strlit("en-SS");
    reveal_strlit("en-TZ");
    reveal_strlit("en-TK");
    reveal_strlit("en-TO");
    reveal_strlit("en-TT");
    reveal_strlit("en-TC");
    reveal_strlit("en-TV");
    reveal_strlit("en-UG");
    reveal_strlit("en-VU");
    reveal_strlit("en-US");
    reveal_strlit("en-GB");
    reveal_strlit("en-CX");
    reveal_strlit("et-EE");
    reveal_strlit("fan-GQ");
    reveal_strlit("fo-FO");
    reveal_strlit("fa-IR");
    reveal_strlit("fj-FJ");
    reveal_strlit("fi-FI");
    reveal_strlit("fr-GQ");
    reveal_strlit("fr-BE");
    reveal_strlit("fr-BJ");
    reveal_strlit("fr-BF");
    reveal_strlit("fr-BI");
    reveal_strlit("fr-CD");
    reveal_strlit("fr-DJ");
    reveal_strlit("fr-CI");
    reveal_strlit("fr-FR");
    reveal_strlit("fr-GF");
    reveal_strlit("fr-PF");
    reveal_strlit("fr-TF");
    reveal_strlit("fr-MC");
    reveal_strlit("fr-GA");
    reveal_strlit("fr-GP");
    reveal_strlit("fr-GG");
    reveal_strlit("fr-GN");
    reveal_strlit("fr-HT");
    reveal_strlit("fr-JE");
    reveal_strlit("fr-CM");
    reveal_strlit("fr-CA");
    reveal_strlit("fr-KM");
    reveal_strlit("fr-LB");
    reveal_strlit("fr-LU");
    reveal_strlit("fr-MG");
    reveal_strlit("fr-ML");
    reveal_strlit("fr-MQ");
    reveal_strlit("fr-YT");
    reveal_strlit("fr-NC");
    reveal_strlit("fr-NE");
    reveal_strlit("fr-CG");
    reveal_strlit("fr-RE");
    reveal_strlit("fr-RW");
    reveal_strlit("fr-MF");
    reveal_strlit("fr-BL");
    reveal_strlit("fr-CH");
    reveal_strlit("fr-SN");
    reveal_strlit("fr-SC");
    reveal_strlit("fr-PM");
    reveal_strlit("fr-TG");
    reveal_strlit("fr-TD");
    reveal_strlit("fr-VU");
    reveal_strlit("fr-VA");
    reveal_strlit("fr-WF");
    reveal_strlit("fr-CF");
    reveal_strlit("ff-BF");
    reveal_strlit("ff-GN");
    reveal_strlit("ga-IE");
    reveal_strlit("gv-IM");
    reveal_strlit("gn-AR");
    reveal_strlit("gn-PY");
    reveal_strlit("ht-HT");
    reveal_strlit("he-IL");
    reveal_strlit("hif-FJ");
    reveal_strlit("hi-IN");
    reveal_strlit("hr-BA");
    reveal_strlit("hr-HR");
    reveal_strlit("hr-ME");
    reveal_strlit("hu-HU");
    reveal_strlit("hy-AM");
    reveal_strlit("hy-CY");
    reveal_strlit("id-ID");
    reveal_strlit("is-IS");
    reveal_strlit("it-IT");
    reveal_strlit("it-SM");
    reveal_strlit("it-CH");
    reveal_strlit("it-VA");
    reveal_strlit("ja-JP");
    reveal_strlit("kl-GL");
    reveal_strlit("ka-GE");
    reveal_strlit("kk-KZ");
    reveal_strlit("km-KH");
    reveal_strlit("rw-RW");
    reveal_strlit("ky-KG");
    reveal_strlit("kg-CD");
    reveal_strlit("ko-KP");
    reveal_strlit("ko-KR");
    reveal_strlit("kun-ER");
    reveal_strlit("ku-IQ");
    reveal_strlit("lo-LA");
    reveal_strlit("la-VA");
    reveal_strlit("lv-LV");
    reveal_strlit("ln-CD");
    reveal_strlit("ln-CG");
    reveal_strlit("lt-LT");
    reveal_strlit("lb-LU");
    reveal_strlit("lu-CD");
    reveal_strlit("mh-MH");
    reveal_strlit("mk-MK");
    reveal_strlit("mg-MG");
    reveal_strlit("mt-MT");
    reveal_strlit("mn-MN");
    reveal_strlit("mi-NZ");
    reveal_strlit("ms-BN");
    reveal_strlit("ms-SG");
    reveal_strlit("my-MM");
    reveal_strlit("na-NR");
    reveal_strlit("nr-ZA");
    reveal_strlit("nd-ZW");
    reveal_strlit("ne-NP");
    reveal_strlit("nl-AW");
    reveal_strlit("nl-BE");
    reveal_strlit("nl-CW");
    reveal_strlit("nl-BQ");
    reveal_strlit("nl-NL");
    reveal_strlit("nl-MF");
    reveal_strlit("nl-SX");
    reveal_strlit("nl-SR");
    reveal_strlit("nn-BV");
    reveal_strlit("nn-NO");
    reveal_strlit("nb-BV");
    reveal_strlit("nb-NO");
    reveal_strlit("no-BV");
    reveal_strlit("no-NO");
    reveal_strlit("no-SJ");
    reveal_strlit("nrb-ER");
    reveal_strlit("ny-MW");
    reveal_strlit("pa-AW");
    reveal_strlit("pa-CW");
    reveal_strlit("pl-PL");
    reveal_strlit("pt-AO");
    reveal_strlit("pt-GQ");
    reveal_strlit("pt-BR");
    reveal_strlit("pt-GW");
    reveal_strlit("pt-CV");
    reveal_strlit("pt-MO");
    reveal_strlit("pt-MZ");
    reveal_strlit("pt-TL");
    reveal_strlit("pt-PT");
    reveal_strlit("pt-ST");
    reveal_strlit("ps-AF");
    reveal_strlit("qu-BO");
    reveal_strlit("rar-CK");
    reveal_strlit("rm-CH");
    reveal_strlit("ro-MD");
    reveal_strlit("ro-RO");
    reveal_strlit("rtm-FJ");
    reveal_strlit("rn-BI");
    reveal_strlit("ru-AQ");
    reveal_strlit("ru-BY");
    reveal_strlit("ru-KZ");
    reveal_strlit("ru-KG");
    reveal_strlit("ru-RU");
    reveal_strlit("ru-TJ");
    reveal_strlit("ru-TM");
    reveal_strlit("ru-UZ");
    reveal_strlit("sg-CF");
    reveal_strlit("si-LK");
    reveal_strlit("sk-SK");
    reveal_strlit("sk-CZ");
    reveal_strlit("sl-SI");
    reveal_strlit("sm-AS");
    reveal_strlit("sm-WS");
    reveal_strlit("sn-ZW");
    reveal_strlit("so-SO");
    reveal_strlit("st-LS");
    reveal_strlit("st-ZA");
    reveal_strlit("es-GQ");
    reveal_strlit("es-AR");
    reveal_strlit("es-BZ");
    reveal_strlit("es-BO");
    reveal_strlit("es-CL");
    reveal_strlit("es-CR");
    reveal_strlit("es-DO");
    reveal_strlit("es-EC");
    reveal_strlit("es-SV");
    reveal_strlit("es-GU");
    reveal_strlit("es-GT");
    reveal_strlit("es-HN");
    reveal_strlit("es-CO");
    reveal_strlit("es-CU");
    reveal_strlit("es-MX");
    reveal_strlit("es-NI");
    reveal_strlit("es-PA");
    reveal_strlit("es-PY");
    reveal_strlit("es-PE");
    reveal_strlit("es-PR");
    reveal_strlit("es-ES");
    reveal_strlit("es-UY");
    reveal_strlit("es-VE");
    reveal_strlit("es-EH");
    reveal_strlit("sq-AL");
    reveal_strlit("sq-XK");
    reveal_strlit("sq-ME");
    reveal_strlit("sr-BA");
    reveal_strlit("sr-XK");
    reveal_strlit("sr-ME");
    reveal_strlit("sr-RS");
    reveal_strlit("ss-SZ");
    reveal_strlit("ss-ZA");
    reveal_strlit("ssy-ER");
    reveal_strlit("sw-CD");
    reveal_strlit("sw-KE");
    reveal_strlit("sw-TZ");
    reveal_strlit("sw-UG");
    reveal_strlit("sv-AX");
    reveal_strlit("sv-FI");
    reveal_strlit("sv-SE");
    reveal_strlit("ta-SG");
    reveal_strlit("ta-LK");
    reveal_strlit("tg-TJ");
    reveal_strlit("th-TH");
    reveal_strlit("tig-ER");
    reveal_strlit("ti-ER");
    reveal_strlit("to-TO");
    reveal_strlit("tn-BW");
    reveal_strlit("tn-ZA");
    reveal_strlit("ts-ZA");
    reveal_strlit("tk-AF");
    reveal_strlit("tk-TM");
    reveal_strlit("tr-TR");
    reveal_strlit("tr-CY");
    reveal_strlit("uk-UA");
    reveal_strlit("ur-PK");
    reveal_strlit("uz-AF");
    reveal_strlit("uz-UZ");
    reveal_strlit("ve-ZA");
    reveal_strlit("vi-VN");
    reveal_strlit("xh-ZA");
    reveal_strlit("zh-CN");
    reveal_strlit("zh-HK");
    reveal_strlit("zh-MO");
    reveal_strlit("zh-SG");
    reveal_strlit("zh-TW");
    reveal_strlit("ms-MY");
    reveal_strlit("zu-ZA");
}

/// Along `BY_KEY` the keys grow strictly.
proof fn lemma_keys_grow(k: int, l: int)
    requires
        0 <= k < l < 377,
    ensures
        key_at(k) < key_at(l),
    decreases l - k,
{
    lemma_entries(l - 1);
    if k < l - 1 {
        lemma_keys_grow(k, l - 1);
    }
}

/// `BY_KEY` holds position `i` of the table at `PLACE[i]`.
#[verifier::rlimit(100)]
proof fn lemma_place(i: int)
    requires
        0 <= i < 377,
    ensures
        0 <= place(i) < 377,
        by_key(place(i)) == i,
{
    lemma_one_of_first(i, 377);
    reveal_with_fuel(one_of_first, 378);
    reveal(by_key);
    reveal(place);
}

/// Every code in the table has the form `language-REGION`.
pub proof fn lemma_code_form(i: int)
    requires
        0 <= i < LOCALE_COUNT,
    ensures
        is_language_region(locale_code(i)),
{
    lemma_entries(i);
}

/// No code occurs twice in the table.
pub proof fn lemma_codes_distinct(i: int, j: int)
    requires
        0 <= i < LOCALE_COUNT,
        0 <= j < LOCALE_COUNT,
        i != j,
    ensures
        locale_code(i) != locale_code(j),
{
    lemma_place(i);
    lemma_place(j);
    let k = place(i);
    let l = place(j);
    if k < l {
        lemma_keys_grow(k, l);
    } else {
        lemma_keys_grow(l, k);
    }
    assert(key_at(k) != key_at(l));
    reveal(key_at);
}

} // verus!
