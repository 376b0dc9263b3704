//! The languages that the content service names, and their codes.

use vstd::prelude::*;
use vstd::string::StringExecFns;
use crate::text::same_text;

verus! {

/// A language, as the content service names it.
#[derive(Clone, Debug, PartialEq, Eq, Hash)]
pub enum LanguageCode {
    /// `aa`
    Afar,
    /// `ab`
    Abkhazian,
    /// `af`
    Afrikaans,
    /// `am`
    Amharic,
    /// `ar`
    Arabic,
    /// `as`
    Assamese,
    /// `ay`
    Aymara,
    /// `az`
    Azerbaijani,
    /// `ba`
    Bashkir,
    /// `be`
    Byelorussian,
    /// `bg`
    Bulgarian,
    /// `bh`
    Bihari,
    /// `bi`
    Bislama,
    /// `bn`
    Bengali,
    /// `bo`
    Tibetan,
    /// `br`
    Breton,
    /// `ca`
    Catalan,
    /// `co`
    Corsican,
    /// `cs`
    Czech,
    /// `cy`
    Welch,
    /// `da`
    Danish,
    /// `de`
    German,
    /// `dz`
    Bhutani,
    /// `el`
    Greek,
    /// `en`
    English,
    /// `eo`
    Esperanto,
    /// `es`
    Spanish,
    /// `et`
    Estonian,
    /// `eu`
    Basque,
    /// `fa`
    Persian,
    /// `fi`
    Finnish,
    /// `fj`
    Fiji,
    /// `fo`
    Faeroese,
    /// `fr`
    French,
    /// `fy`
    Frisian,
    /// `ga`
    Irish,
    /// `gd`
    ScotsGaelic,
    /// `gl`
    Galician,
    /// `gn`
    Guarani,
    /// `gu`
    Gujarati,
    /// `ha`
    Hausa,
    /// `hi`
    Hindi,
    /// `he`
    Hebrew,
    /// `hr`
    Croatian,
    /// `hu`
    Hungarian,
    /// `hy`
    Armenian,
    /// `ia`
    Interlingua,
    /// `id`
    Indonesian,
    /// `ie`
    Interlingue,
    /// `ik`
    Inupiak,
    /// `is`
    Icelandic,
    /// `it`
    Italian,
    /// `iu`
    Inuktitut,
    /// `ja`
    Japanese,
    /// `jw`
    Javanese,
    /// `ka`
    Georgian,
    /// `kk`
    Kazakh,
    /// `kl`
    Greenlandic,
    /// `km`
    Cambodian,
    /// `kn`
    Kannada,
    /// `ko`
    Korean,
    /// `ks`
    Kashmiri,
    /// `ku`
    Kurdish,
    /// `ky`
    Kirghiz,
    /// `la`
    Latin,
    /// `ln`
    Lingala,
    /// `lo`
    Laothian,
    /// `lt`
    Lithuanian,
    /// `lv`
    Latvian,
    /// `mg`
    Malagasy,
    /// `mi`
    Maori,
    /// `mk`
    Macedonian,
    /// `ml`
    Malayalam,
    /// `mn`
    Mongolian,
    /// `mo`
    Moldavian,
    /// `mr`
    Marathi,
    /// `ms`
    Malay,
    /// `mt`
    Maltese,
    /// `my`
    Burmese,
    /// `na`
    Nauru,
    /// `ne`
    Nepali,
    /// `nl`
    Dutch,
    /// `no`
    Norwegian,
    /// `oc`
    Occitan,
    /// `om`
    Oromo,
    /// `or`
    Oriya,
    /// `pa`
    Punjabi,
    /// `pl`
    Polish,
    /// `ps`
    Pashto,
    /// `pt`
    Portuguese,
    /// `qu`
    Quechua,
    /// `rm`
    RhaetoRomance,
    /// `rn`
    Kirundi,
    /// `ro`
    Romanian,
    /// `ru`
    Russian,
    /// `rw`
    Kinyarwanda,
    /// `sa`
    Sanskrit,
    /// `sd`
    Sindhi,
    /// `sg`
    Sangro,
    /// `sh`
    SerboCroatian,
    /// `si`
    Singhalese,
    /// `sk`
    Slovak,
    /// `sl`
    Slovenian,
    /// `sm`
    Samoan,
    /// `sn`
    Shona,
    /// `so`
    Somali,
    /// `sq`
    Albanian,
    /// `sr`
    Serbian,
    /// `ss`
    Siswati,
    /// `st`
    Sesotho,
    /// `su`
    Sudanese,
    /// `sv`
    Swedish,
    /// `sw`
    Swahili,
    /// `ta`
    Tamil,
    /// `te`
    Tegulu,
    /// `tg`
    Tajik,
    /// `th`
    Thai,
    /// `ti`
    Tigrinya,
    /// `tk`
    Turkmen,
    /// `tn`
    Setswana,
    /// `to`
    Tonga,
    /// `tr`
    Turkish,
    /// `ts`
    Tsonga,
    /// `tt`
    Tatar,
    /// `tw`
    Twi,
    /// `ug`
    Uigur,
    /// `uk`
    Ukrainian,
    /// `ur`
    Urdu,
    /// `uz`
    Uzbek,
    /// `vi`
    Vietnamese,
    /// `vo`
    Volapuk,
    /// `wo`
    Wolof,
    /// `xh`
    Xhosa,
    /// `yi`
    Yiddish,
    /// `yo`
    Yoruba,
    /// `za`
    Zhuang,
    /// `zh`
    Chinese,
    /// `zu`
    Zulu,
    /// `tl`; on reading, that code is taken for Filipino.
    Tagalog,
    /// `zh-hk`
    TraditionalChinese,
    /// `pt-br`
    BrazilianPortugese,
    /// `es-la`
    LatinAmericanSpanish,
    /// `ja-ro`
    RomanizedJapanese,
    /// `ko-ro`
    RomanizedKorean,
    /// `zh-ro`
    RomanizedChinese,
    /// `tl`
    Filipino,
    /// The code `NULL`, which the service uses now and then.
    Null,
    /// A code that is not in the list.
    Any(String),
}

impl LanguageCode {
    /// The code of the language.
    pub open spec fn text(self) -> Seq<char> {
        match self {
            LanguageCode::Afar => "aa"@,
            LanguageCode::Abkhazian => "ab"@,
            LanguageCode::Afrikaans => "af"@,
            LanguageCode::Amharic => "am"@,
            LanguageCode::Arabic => "ar"@,
            LanguageCode::Assamese => "as"@,
            LanguageCode::Aymara => "ay"@,
            LanguageCode::Azerbaijani => "az"@,
            LanguageCode::Bashkir => "ba"@,
            LanguageCode::Byelorussian => "be"@,
            LanguageCode::Bulgarian => "bg"@,
            LanguageCode::Bihari => "bh"@,
            LanguageCode::Bislama => "bi"@,
            LanguageCode::Bengali => "bn"@,
            LanguageCode::Tibetan => "bo"@,
            LanguageCode::Breton => "br"@,
            LanguageCode::Catalan => "ca"@,
            LanguageCode::Corsican => "co"@,
            LanguageCode::Czech => "cs"@,
            LanguageCode::Welch => "cy"@,
            LanguageCode::Danish => "da"@,
            LanguageCode::German => "de"@,
            LanguageCode::Bhutani => "dz"@,
            LanguageCode::Greek => "el"@,
            LanguageCode::English => "en"@,
            LanguageCode::Esperanto => "eo"@,
            LanguageCode::Spanish => "es"@,
            LanguageCode::Estonian => "et"@,
            LanguageCode::Basque => "eu"@,
            LanguageCode::Persian => "fa"@,
            LanguageCode::Finnish => "fi"@,
            LanguageCode::Fiji => "fj"@,
            LanguageCode::Faeroese => "fo"@,
            LanguageCode::French => "fr"@,
            LanguageCode::Frisian => "fy"@,
            LanguageCode::Irish => "ga"@,
            LanguageCode::ScotsGaelic => "gd"@,
            LanguageCode::Galician => "gl"@,
            LanguageCode::Guarani => "gn"@,
            LanguageCode::Gujarati => "gu"@,
            LanguageCode::Hausa => "ha"@,
            LanguageCode::Hindi => "hi"@,
            LanguageCode::Hebrew => "he"@,
            LanguageCode::Croatian => "hr"@,
            LanguageCode::Hungarian => "hu"@,
            LanguageCode::Armenian => "hy"@,
            LanguageCode::Interlingua => "ia"@,
            LanguageCode::Indonesian => "id"@,
            LanguageCode::Interlingue => "ie"@,
            LanguageCode::Inupiak => "ik"@,
            LanguageCode::Icelandic => "is"@,
            LanguageCode::Italian => "it"@,
            LanguageCode::Inuktitut => "iu"@,
            LanguageCode::Japanese => "ja"@,
            LanguageCode::Javanese => "jw"@,
            LanguageCode::Georgian => "ka"@,
            LanguageCode::Kazakh => "kk"@,
            LanguageCode::Greenlandic => "kl"@,
            LanguageCode::Cambodian => "km"@,
            LanguageCode::Kannada => "kn"@,
            LanguageCode::Korean => "ko"@,
            LanguageCode::Kashmiri => "ks"@,
            LanguageCode::Kurdish => "ku"@,
            LanguageCode::Kirghiz => "ky"@,
            LanguageCode::Latin => "la"@,
            LanguageCode::Lingala => "ln"@,
            LanguageCode::Laothian => "lo"@,
            LanguageCode::Lithuanian => "lt"@,
            LanguageCode::Latvian => "lv"@,
            LanguageCode::Malagasy => "mg"@,
            LanguageCode::Maori => "mi"@,
            LanguageCode::Macedonian => "mk"@,
            LanguageCode::Malayalam => "ml"@,
            LanguageCode::Mongolian => "mn"@,
            LanguageCode::Moldavian => "mo"@,
            LanguageCode::Marathi => "mr"@,
            LanguageCode::Malay => "ms"@,
            LanguageCode::Maltese => "mt"@,
            LanguageCode::Burmese => "my"@,
            LanguageCode::Nauru => "na"@,
            LanguageCode::Nepali => "ne"@,
            LanguageCode::Dutch => "nl"@,
            LanguageCode::Norwegian => "no"@,
            LanguageCode::Occitan => "oc"@,
            LanguageCode::Oromo => "om"@,
            LanguageCode::Oriya => "or"@,
            LanguageCode::Punjabi => "pa"@,
            LanguageCode::Polish => "pl"@,
            LanguageCode::Pashto => "ps"@,
            LanguageCode::Portuguese => "pt"@,
            LanguageCode::Quechua => "qu"@,
            LanguageCode::RhaetoRomance => "rm"@,
            LanguageCode::Kirundi => "rn"@,
            LanguageCode::Romanian => "ro"@,
            LanguageCode::Russian => "ru"@,
            LanguageCode::Kinyarwanda => "rw"@,
            LanguageCode::Sanskrit => "sa"@,
            LanguageCode::Sindhi => "sd"@,
            LanguageCode::Sangro => "sg"@,
            LanguageCode::SerboCroatian => "sh"@,
            LanguageCode::Singhalese => "si"@,
            LanguageCode::Slovak => "sk"@,
            LanguageCode::Slovenian => "sl"@,
            LanguageCode::Samoan => "sm"@,
            LanguageCode::Shona => "sn"@,
            LanguageCode::Somali => "so"@,
            LanguageCode::Albanian => "sq"@,
            LanguageCode::Serbian => "sr"@,
            LanguageCode::Siswati => "ss"@,
            LanguageCode::Sesotho => "st"@,
            LanguageCode::Sudanese => "su"@,
            LanguageCode::Swedish => "sv"@,
            LanguageCode::Swahili => "sw"@,
            LanguageCode::Tamil => "ta"@,
            LanguageCode::Tegulu => "te"@,
            LanguageCode::Tajik => "tg"@,
            LanguageCode::Thai => "th"@,
            LanguageCode::Tigrinya => "ti"@,
            LanguageCode::Turkmen => "tk"@,
            LanguageCode::Setswana => "tn"@,
            LanguageCode::Tonga => "to"@,
            LanguageCode::Turkish => "tr"@,
            LanguageCode::Tsonga => "ts"@,
            LanguageCode::Tatar => "tt"@,
            LanguageCode::Twi => "tw"@,
            LanguageCode::Uigur => "ug"@,
            LanguageCode::Ukrainian => "uk"@,
            LanguageCode::Urdu => "ur"@,
            LanguageCode::Uzbek => "uz"@,
            LanguageCode::Vietnamese => "vi"@,
            LanguageCode::Volapuk => "vo"@,
            LanguageCode::Wolof => "wo"@,
            LanguageCode::Xhosa => "xh"@,
            LanguageCode::Yiddish => "yi"@,
            LanguageCode::Yoruba => "yo"@,
            LanguageCode::Zhuang => "za"@,
            LanguageCode::Chinese => "zh"@,
            LanguageCode::Zulu => "zu"@,
            LanguageCode::Tagalog => "tl"@,
            LanguageCode::TraditionalChinese => "zh-hk"@,
            LanguageCode::BrazilianPortugese => "pt-br"@,
            LanguageCode::LatinAmericanSpanish => "es-la"@,
            LanguageCode::RomanizedJapanese => "ja-ro"@,
            LanguageCode::RomanizedKorean => "ko-ro"@,
            LanguageCode::RomanizedChinese => "zh-ro"@,
            LanguageCode::Filipino => "tl"@,
            LanguageCode::Null => "NULL"@,
            LanguageCode::Any(code) => code@,
        }
    }

    /// The language that a code of the list stands for.
    pub open spec fn known(code: Seq<char>) -> Option<LanguageCode> {
        if code == "aa"@ {
            Some(LanguageCode::Afar)
        } else if code == "ab"@ {
            Some(LanguageCode::Abkhazian)
        } else if code == "af"@ {
            Some(LanguageCode::Afrikaans)
        } else if code == "am"@ {
            Some(LanguageCode::Amharic)
        } else if code == "ar"@ {
            Some(LanguageCode::Arabic)
        } else if code == "as"@ {
            Some(LanguageCode::Assamese)
        } else if code == "ay"@ {
            Some(LanguageCode::Aymara)
        } else if code == "az"@ {
            Some(LanguageCode::Azerbaijani)
        } else if code == "ba"@ {
            Some(LanguageCode::Bashkir)
        } else if code == "be"@ {
            Some(LanguageCode::Byelorussian)
        } else if code == "bg"@ {
            Some(LanguageCode::Bulgarian)
        } else if code == "bh"@ {
            Some(LanguageCode::Bihari)
        } else if code == "bi"@ {
            Some(LanguageCode::Bislama)
        } else if code == "bn"@ {
            Some(LanguageCode::Bengali)
        } else if code == "bo"@ {
            Some(LanguageCode::Tibetan)
        } else if code == "br"@ {
            Some(LanguageCode::Breton)
        } else if code == "ca"@ {
            Some(LanguageCode::Catalan)
        } else if code == "co"@ {
            Some(LanguageCode::Corsican)
        } else if code == "cs"@ {
            Some(LanguageCode::Czech)
        } else if code == "cy"@ {
            Some(LanguageCode::Welch)
        } else if code == "da"@ {
            Some(LanguageCode::Danish)
        } else if code == "de"@ {
            Some(LanguageCode::German)
        } else if code == "dz"@ {
            Some(LanguageCode::Bhutani)
        } else if code == "el"@ {
            Some(LanguageCode::Greek)
        } else if code == "en"@ {
            Some(LanguageCode::English)
        } else if code == "eo"@ {
            Some(LanguageCode::Esperanto)
        } else if code == "es"@ {
            Some(LanguageCode::Spanish)
        } else if code == "et"@ {
            Some(LanguageCode::Estonian)
        } else if code == "eu"@ {
            Some(LanguageCode::Basque)
        } else if code == "fa"@ {
            Some(LanguageCode::Persian)
        } else if code == "fi"@ {
            Some(LanguageCode::Finnish)
        } else if code == "fj"@ {
            Some(LanguageCode::Fiji)
        } else if code == "fo"@ {
            Some(LanguageCode::Faeroese)
        } else if code == "fr"@ {
            Some(LanguageCode::French)
        } else if code == "fy"@ {
            Some(LanguageCode::Frisian)
        } else if code == "ga"@ {
            Some(LanguageCode::Irish)
        } else if code == "gd"@ {
            Some(LanguageCode::ScotsGaelic)
        } else if code == "gl"@ {
            Some(LanguageCode::Galician)
        } else if code == "gn"@ {
            Some(LanguageCode::Guarani)
        } else if code == "gu"@ {
            Some(LanguageCode::Gujarati)
        } else if code == "ha"@ {
            Some(LanguageCode::Hausa)
        } else if code == "hi"@ {
            Some(LanguageCode::Hindi)
        } else if code == "he"@ {
            Some(LanguageCode::Hebrew)
        } else if code == "hr"@ {
            Some(LanguageCode::Croatian)
        } else if code == "hu"@ {
            Some(LanguageCode::Hungarian)
        } else if code == "hy"@ {
            Some(LanguageCode::Armenian)
        } else if code == "ia"@ {
            Some(LanguageCode::Interlingua)
        } else if code == "id"@ {
            Some(LanguageCode::Indonesian)
        } else if code == "ie"@ {
            Some(LanguageCode::Interlingue)
        } else if code == "ik"@ {
            Some(LanguageCode::Inupiak)
        } else if code == "is"@ {
            Some(LanguageCode::Icelandic)
        } else if code == "it"@ {
            Some(LanguageCode::Italian)
        } else if code == "iu"@ {
            Some(LanguageCode::Inuktitut)
        } else if code == "ja"@ {
            Some(LanguageCode::Japanese)
        } else if code == "jw"@ {
            Some(LanguageCode::Javanese)
        } else if code == "ka"@ {
            Some(LanguageCode::Georgian)
        } else if code == "kk"@ {
            Some(LanguageCode::Kazakh)
        } else if code == "kl"@ {
            Some(LanguageCode::Greenlandic)
        } else if code == "km"@ {
            Some(LanguageCode::Cambodian)
        } else if code == "kn"@ {
            Some(LanguageCode::Kannada)
        } else if code == "ko"@ {
            Some(LanguageCode::Korean)
        } else if code == "ks"@ {
            Some(LanguageCode::Kashmiri)
        } else if code == "ku"@ {
            Some(LanguageCode::Kurdish)
        } else if code == "ky"@ {
            Some(LanguageCode::Kirghiz)
        } else if code == "la"@ {
            Some(LanguageCode::Latin)
        } else if code == "ln"@ {
            Some(LanguageCode::Lingala)
        } else if code == "lo"@ {
            Some(LanguageCode::Laothian)
        } else if code == "lt"@ {
            Some(LanguageCode::Lithuanian)
        } else if code == "lv"@ {
            Some(LanguageCode::Latvian)
        } else if code == "mg"@ {
            Some(LanguageCode::Malagasy)
        } else if code == "mi"@ {
            Some(LanguageCode::Maori)
        } else if code == "mk"@ {
            Some(LanguageCode::Macedonian)
        } else if code == "ml"@ {
            Some(LanguageCode::Malayalam)
        } else if code == "mn"@ {
            Some(LanguageCode::Mongolian)
        } else if code == "mo"@ {
            Some(LanguageCode::Moldavian)
        } else if code == "mr"@ {
            Some(LanguageCode::Marathi)
        } else if code == "ms"@ {
            Some(LanguageCode::Malay)
        } else if code == "mt"@ {
            Some(LanguageCode::Maltese)
        } else if code == "my"@ {
            Some(LanguageCode::Burmese)
        } else if code == "na"@ {
            Some(LanguageCode::Nauru)
        } else if code == "ne"@ {
            Some(LanguageCode::Nepali)
        } else if code == "nl"@ {
            Some(LanguageCode::Dutch)
        } else if code == "no"@ {
            Some(LanguageCode::Norwegian)
        } else if code == "oc"@ {
            Some(LanguageCode::Occitan)
        } else if code == "om"@ {
            Some(LanguageCode::Oromo)
        } else if code == "or"@ {
            Some(LanguageCode::Oriya)
        } else if code == "pa"@ {
            Some(LanguageCode::Punjabi)
        } else if code == "pl"@ {
            Some(LanguageCode::Polish)
        } else if code == "ps"@ {
            Some(LanguageCode::Pashto)
        } else if code == "pt"@ {
            Some(LanguageCode::Portuguese)
        } else if code == "qu"@ {
            Some(LanguageCode::Quechua)
        } else if code == "rm"@ {
            Some(LanguageCode::RhaetoRomance)
        } else if code == "rn"@ {
            Some(LanguageCode::Kirundi)
        } else if code == "ro"@ {
            Some(LanguageCode::Romanian)
        } else if code == "ru"@ {
            Some(LanguageCode::Russian)
        } else if code == "rw"@ {
            Some(LanguageCode::Kinyarwanda)
        } else if code == "sa"@ {
            Some(LanguageCode::Sanskrit)
        } else if code == "sd"@ {
            Some(LanguageCode::Sindhi)
        } else if code == "sg"@ {
            Some(LanguageCode::Sangro)
        } else if code == "sh"@ {
            Some(LanguageCode::SerboCroatian)
        } else if code == "si"@ {
            Some(LanguageCode::Singhalese)
        } else if code == "sk"@ {
            Some(LanguageCode::Slovak)
        } else if code == "sl"@ {
            Some(LanguageCode::Slovenian)
        } else if code == "sm"@ {
            Some(LanguageCode::Samoan)
        } else if code == "sn"@ {
            Some(LanguageCode::Shona)
        } else if code == "so"@ {
            Some(LanguageCode::Somali)
        } else if code == "sq"@ {
            Some(LanguageCode::Albanian)
        } else if code == "sr"@ {
            Some(LanguageCode::Serbian)
        } else if code == "ss"@ {
            Some(LanguageCode::Siswati)
        } else if code == "st"@ {
            Some(LanguageCode::Sesotho)
        } else if code == "su"@ {
            Some(LanguageCode::Sudanese)
        } else if code == "sv"@ {
            Some(LanguageCode::Swedish)
        } else if code == "sw"@ {
            Some(LanguageCode::Swahili)
        } else if code == "ta"@ {
            Some(LanguageCode::Tamil)
        } else if code == "te"@ {
            Some(LanguageCode::Tegulu)
        } else if code == "tg"@ {
            Some(LanguageCode::Tajik)
        } else if code == "th"@ {
            Some(LanguageCode::Thai)
        } else if code == "ti"@ {
            Some(LanguageCode::Tigrinya)
        } else if code == "tk"@ {
            Some(LanguageCode::Turkmen)
        } else if code == "tl"@ {
            Some(LanguageCode::Filipino)
        } else if code == "tn"@ {
            Some(LanguageCode::Setswana)
        } else if code == "to"@ {
            Some(LanguageCode::Tonga)
        } else if code == "tr"@ {
            Some(LanguageCode::Turkish)
        } else if code == "ts"@ {
            Some(LanguageCode::Tsonga)
        } else if code == "tt"@ {
            Some(LanguageCode::Tatar)
        } else if code == "tw"@ {
            Some(LanguageCode::Twi)
        } else if code == "ug"@ {
            Some(LanguageCode::Uigur)
        } else if code == "uk"@ {
            Some(LanguageCode::Ukrainian)
        } else if code == "ur"@ {
            Some(LanguageCode::Urdu)
        } else if code == "uz"@ {
            Some(LanguageCode::Uzbek)
        } else if code == "vi"@ {
            Some(LanguageCode::Vietnamese)
        } else if code == "vo"@ {
            Some(LanguageCode::Volapuk)
        } else if code == "wo"@ {
            Some(LanguageCode::Wolof)
        } else if code == "xh"@ {
            Some(LanguageCode::Xhosa)
        } else if code == "yi"@ {
            Some(LanguageCode::Yiddish)
        } else if code == "yo"@ {
            Some(LanguageCode::Yoruba)
        } else if code == "za"@ {
            Some(LanguageCode::Zhuang)
        } else if code == "zh"@ {
            Some(LanguageCode::Chinese)
        } else if code == "zu"@ {
            Some(LanguageCode::Zulu)
        } else if code == "zh-hk"@ {
            Some(LanguageCode::TraditionalChinese)
        } else if code == "pt-br"@ {
            Some(LanguageCode::BrazilianPortugese)
        } else if code == "es-la"@ {
            Some(LanguageCode::LatinAmericanSpanish)
        } else if code == "ja-ro"@ {
            Some(LanguageCode::RomanizedJapanese)
        } else if code == "ko-ro"@ {
            Some(LanguageCode::RomanizedKorean)
        } else if code == "zh-ro"@ {
            Some(LanguageCode::RomanizedChinese)
        } else if code == "NULL"@ {
            Some(LanguageCode::Null)
        } else {
            None
        }
    }

    /// The code of the language.
    pub fn code(&self) -> (code: String)
        ensures
            code@ == self.text(),
    {
        match self {
            LanguageCode::Afar => String::from_str("aa"),
            LanguageCode::Abkhazian => String::from_str("ab"),
            LanguageCode::Afrikaans => String::from_str("af"),
            LanguageCode::Amharic => String::from_str("am"),
            LanguageCode::Arabic => String::from_str("ar"),
            LanguageCode::Assamese => String::from_str("as"),
            LanguageCode::Aymara => String::from_str("ay"),
            LanguageCode::Azerbaijani => String::from_str("az"),
            LanguageCode::Bashkir => String::from_str("ba"),
            LanguageCode::Byelorussian => String::from_str("be"),
            LanguageCode::Bulgarian => String::from_str("bg"),
            LanguageCode::Bihari => String::from_str("bh"),
            LanguageCode::Bislama => String::from_str("bi"),
            LanguageCode::Bengali => String::from_str("bn"),
            LanguageCode::Tibetan => String::from_str("bo"),
            LanguageCode::Breton => String::from_str("br"),
            LanguageCode::Catalan => String::from_str("ca"),
            LanguageCode::Corsican => String::from_str("co"),
            LanguageCode::Czech => String::from_str("cs"),
            LanguageCode::Welch => String::from_str("cy"),
            LanguageCode::Danish => String::from_str("da"),
            LanguageCode::German => String::from_str("de"),
            LanguageCode::Bhutani => String::from_str("dz"),
            LanguageCode::Greek => String::from_str("el"),
            LanguageCode::English => String::from_str("en"),
            LanguageCode::Esperanto => String::from_str("eo"),
            LanguageCode::Spanish => String::from_str("es"),
            LanguageCode::Estonian => String::from_str("et"),
            LanguageCode::Basque => String::from_str("eu"),
            LanguageCode::Persian => String::from_str("fa"),
            LanguageCode::Finnish => String::from_str("fi"),
            LanguageCode::Fiji => String::from_str("fj"),
            LanguageCode::Faeroese => String::from_str("fo"),
            LanguageCode::French => String::from_str("fr"),
            LanguageCode::Frisian => String::from_str("fy"),
            LanguageCode::Irish => String::from_str("ga"),
            LanguageCode::ScotsGaelic => String::from_str("gd"),
            LanguageCode::Galician => String::from_str("gl"),
            LanguageCode::Guarani => String::from_str("gn"),
            LanguageCode::Gujarati => String::from_str("gu"),
            LanguageCode::Hausa => String::from_str("ha"),
            LanguageCode::Hindi => String::from_str("hi"),
            LanguageCode::Hebrew => String::from_str("he"),
            LanguageCode::Croatian => String::from_str("hr"),
            LanguageCode::Hungarian => String::from_str("hu"),
            LanguageCode::Armenian => String::from_str("hy"),
            LanguageCode::Interlingua => String::from_str("ia"),
            LanguageCode::Indonesian => String::from_str("id"),
            LanguageCode::Interlingue => String::from_str("ie"),
            LanguageCode::Inupiak => String::from_str("ik"),
            LanguageCode::Icelandic => String::from_str("is"),
            LanguageCode::Italian => String::from_str("it"),
            LanguageCode::Inuktitut => String::from_str("iu"),
            LanguageCode::Japanese => String::from_str("ja"),
            LanguageCode::Javanese => String::from_str("jw"),
            LanguageCode::Georgian => String::from_str("ka"),
            LanguageCode::Kazakh => String::from_str("kk"),
            LanguageCode::Greenlandic => String::from_str("kl"),
            LanguageCode::Cambodian => String::from_str("km"),
            LanguageCode::Kannada => String::from_str("kn"),
            LanguageCode::Korean => String::from_str("ko"),
            LanguageCode::Kashmiri => String::from_str("ks"),
            LanguageCode::Kurdish => String::from_str("ku"),
            LanguageCode::Kirghiz => String::from_str("ky"),
            LanguageCode::Latin => String::from_str("la"),
            LanguageCode::Lingala => String::from_str("ln"),
            LanguageCode::Laothian => String::from_str("lo"),
            LanguageCode::Lithuanian => String::from_str("lt"),
            LanguageCode::Latvian => String::from_str("lv"),
            LanguageCode::Malagasy => String::from_str("mg"),
            LanguageCode::Maori => String::from_str("mi"),
            LanguageCode::Macedonian => String::from_str("mk"),
            LanguageCode::Malayalam => String::from_str("ml"),
            LanguageCode::Mongolian => String::from_str("mn"),
            LanguageCode::Moldavian => String::from_str("mo"),
            LanguageCode::Marathi => String::from_str("mr"),
            LanguageCode::Malay => String::from_str("ms"),
            LanguageCode::Maltese => String::from_str("mt"),
            LanguageCode::Burmese => String::from_str("my"),
            LanguageCode::Nauru => String::from_str("na"),
            LanguageCode::Nepali => String::from_str("ne"),
            LanguageCode::Dutch => String::from_str("nl"),
            LanguageCode::Norwegian => String::from_str("no"),
            LanguageCode::Occitan => String::from_str("oc"),
            LanguageCode::Oromo => String::from_str("om"),
            LanguageCode::Oriya => String::from_str("or"),
            LanguageCode::Punjabi => String::from_str("pa"),
            LanguageCode::Polish => String::from_str("pl"),
            LanguageCode::Pashto => String::from_str("ps"),
            LanguageCode::Portuguese => String::from_str("pt"),
            LanguageCode::Quechua => String::from_str("qu"),
            LanguageCode::RhaetoRomance => String::from_str("rm"),
            LanguageCode::Kirundi => String::from_str("rn"),
            LanguageCode::Romanian => String::from_str("ro"),
            LanguageCode::Russian => String::from_str("ru"),
            LanguageCode::Kinyarwanda => String::from_str("rw"),
            LanguageCode::Sanskrit => String::from_str("sa"),
            LanguageCode::Sindhi => String::from_str("sd"),
            LanguageCode::Sangro => String::from_str("sg"),
            LanguageCode::SerboCroatian => String::from_str("sh"),
            LanguageCode::Singhalese => String::from_str("si"),
            LanguageCode::Slovak => String::from_str("sk"),
            LanguageCode::Slovenian => String::from_str("sl"),
            LanguageCode::Samoan => String::from_str("sm"),
            LanguageCode::Shona => String::from_str("sn"),
            LanguageCode::Somali => String::from_str("so"),
            LanguageCode::Albanian => String::from_str("sq"),
            LanguageCode::Serbian => String::from_str("sr"),
            LanguageCode::Siswati => String::from_str("ss"),
            LanguageCode::Sesotho => String::from_str("st"),
            LanguageCode::Sudanese => String::from_str("su"),
            LanguageCode::Swedish => String::from_str("sv"),
            LanguageCode::Swahili => String::from_str("sw"),
            LanguageCode::Tamil => String::from_str("ta"),
            LanguageCode::Tegulu => String::from_str("te"),
            LanguageCode::Tajik => String::from_str("tg"),
            LanguageCode::Thai => String::from_str("th"),
            LanguageCode::Tigrinya => String::from_str("ti"),
            LanguageCode::Turkmen => String::from_str("tk"),
            LanguageCode::Setswana => String::from_str("tn"),
            LanguageCode::Tonga => String::from_str("to"),
            LanguageCode::Turkish => String::from_str("tr"),
            LanguageCode::Tsonga => String::from_str("ts"),
            LanguageCode::Tatar => String::from_str("tt"),
            LanguageCode::Twi => String::from_str("tw"),
            LanguageCode::Uigur => String::from_str("ug"),
            LanguageCode::Ukrainian => String::from_str("uk"),
            LanguageCode::Urdu => String::from_str("ur"),
            LanguageCode::Uzbek => String::from_str("uz"),
            LanguageCode::Vietnamese => String::from_str("vi"),
            LanguageCode::Volapuk => String::from_str("vo"),
            LanguageCode::Wolof => String::from_str("wo"),
            LanguageCode::Xhosa => String::from_str("xh"),
            LanguageCode::Yiddish => String::from_str("yi"),
            LanguageCode::Yoruba => String::from_str("yo"),
            LanguageCode::Zhuang => String::from_str("za"),
            LanguageCode::Chinese => String::from_str("zh"),
            LanguageCode::Zulu => String::from_str("zu"),
            LanguageCode::Tagalog => String::from_str("tl"),
            LanguageCode::TraditionalChinese => String::from_str("zh-hk"),
            LanguageCode::BrazilianPortugese => String::from_str("pt-br"),
            LanguageCode::LatinAmericanSpanish => String::from_str("es-la"),
            LanguageCode::RomanizedJapanese => String::from_str("ja-ro"),
            LanguageCode::RomanizedKorean => String::from_str("ko-ro"),
            LanguageCode::RomanizedChinese => String::from_str("zh-ro"),
            LanguageCode::Filipino => String::from_str("tl"),
            LanguageCode::Null => String::from_str("NULL"),
            LanguageCode::Any(code) => code.clone(),
        }
    }

    /// The language that `code` stands for. A code that is not in the list
    /// is kept as it is.
    pub fn from_code(code: &str) -> (language: LanguageCode)
        ensures
            match LanguageCode::known(code@) {
                Some(found) => language == found,
                None => language matches LanguageCode::Any(kept) && kept@ == code@,
            },
            language.text() == code@,
    {
        if same_text(code, "aa") {
            LanguageCode::Afar
        } else if same_text(code, "ab") {
            LanguageCode::Abkhazian
        } else if same_text(code, "af") {
            LanguageCode::Afrikaans
        } else if same_text(code, "am") {
            LanguageCode::Amharic
        } else if same_text(code, "ar") {
            LanguageCode::Arabic
        } else if same_text(code, "as") {
            LanguageCode::Assamese
        } else if same_text(code, "ay") {
            LanguageCode::Aymara
        } else if same_text(code, "az") {
            LanguageCode::Azerbaijani
        } else if same_text(code, "ba") {
            LanguageCode::Bashkir
        } else if same_text(code, "be") {
            LanguageCode::Byelorussian
        } else if same_text(code, "bg") {
            LanguageCode::Bulgarian
        } else if same_text(code, "bh") {
            LanguageCode::Bihari
        } else if same_text(code, "bi") {
            LanguageCode::Bislama
        } else if same_text(code, "bn") {
            LanguageCode::Bengali
        } else if same_text(code, "bo") {
            LanguageCode::Tibetan
        } else if same_text(code, "br") {
            LanguageCode::Breton
        } else if same_text(code, "ca") {
            LanguageCode::Catalan
        } else if same_text(code, "co") {
            LanguageCode::Corsican
        } else if same_text(code, "cs") {
            LanguageCode::Czech
        } else if same_text(code, "cy") {
            LanguageCode::Welch
        } else if same_text(code, "da") {
            LanguageCode::Danish
        } else if same_text(code, "de") {
            LanguageCode::German
        } else if same_text(code, "dz") {
            LanguageCode::Bhutani
        } else if same_text(code, "el") {
            LanguageCode::Greek
        } else if same_text(code, "en") {
            LanguageCode::English
        } else if same_text(code, "eo") {
            LanguageCode::Esperanto
        } else if same_text(code, "es") {
            LanguageCode::Spanish
        } else if same_text(code, "et") {
            LanguageCode::Estonian
        } else if same_text(code, "eu") {
            LanguageCode::Basque
        } else if same_text(code, "fa") {
            LanguageCode::Persian
        } else if same_text(code, "fi") {
            LanguageCode::Finnish
        } else if same_text(code, "fj") {
            LanguageCode::Fiji
        } else if same_text(code, "fo") {
            LanguageCode::Faeroese
        } else if same_text(code, "fr") {
            LanguageCode::French
        } else if same_text(code, "fy") {
            LanguageCode::Frisian
        } else if same_text(code, "ga") {
            LanguageCode::Irish
        } else if same_text(code, "gd") {
            LanguageCode::ScotsGaelic
        } else if same_text(code, "gl") {
            LanguageCode::Galician
        } else if same_text(code, "gn") {
            LanguageCode::Guarani
        } else if same_text(code, "gu") {
            LanguageCode::Gujarati
        } else if same_text(code, "ha") {
            LanguageCode::Hausa
        } else if same_text(code, "hi") {
            LanguageCode::Hindi
        } else if same_text(code, "he") {
            LanguageCode::Hebrew
        } else if same_text(code, "hr") {
            LanguageCode::Croatian
        } else if same_text(code, "hu") {
            LanguageCode::Hungarian
        } else if same_text(code, "hy") {
            LanguageCode::Armenian
        } else if same_text(code, "ia") {
            LanguageCode::Interlingua
        } else if same_text(code, "id") {
            LanguageCode::Indonesian
        } else if same_text(code, "ie") {
            LanguageCode::Interlingue
        } else if same_text(code, "ik") {
            LanguageCode::Inupiak
        } else if same_text(code, "is") {
            LanguageCode::Icelandic
        } else if same_text(code, "it") {
            LanguageCode::Italian
        } else if same_text(code, "iu") {
            LanguageCode::Inuktitut
        } else if same_text(code, "ja") {
            LanguageCode::Japanese
        } else if same_text(code, "jw") {
            LanguageCode::Javanese
        } else if same_text(code, "ka") {
            LanguageCode::Georgian
        } else if same_text(code, "kk") {
            LanguageCode::Kazakh
        } else if same_text(code, "kl") {
            LanguageCode::Greenlandic
        } else if same_text(code, "km") {
            LanguageCode::Cambodian
        } else if same_text(code, "kn") {
            LanguageCode::Kannada
        } else if same_text(code, "ko") {
            LanguageCode::Korean
        } else if same_text(code, "ks") {
            LanguageCode::Kashmiri
        } else if same_text(code, "ku") {
            LanguageCode::Kurdish
        } else if same_text(code, "ky") {
            LanguageCode::Kirghiz
        } else if same_text(code, "la") {
            LanguageCode::Latin
        } else if same_text(code, "ln") {
            LanguageCode::Lingala
        } else if same_text(code, "lo") {
            LanguageCode::Laothian
        } else if same_text(code, "lt") {
            LanguageCode::Lithuanian
        } else if same_text(code, "lv") {
            LanguageCode::Latvian
        } else if same_text(code, "mg") {
            LanguageCode::Malagasy
        } else if same_text(code, "mi") {
            LanguageCode::Maori
        } else if same_text(code, "mk") {
            LanguageCode::Macedonian
        } else if same_text(code, "ml") {
            LanguageCode::Malayalam
        } else if same_text(code, "mn") {
            LanguageCode::Mongolian
        } else if same_text(code, "mo") {
            LanguageCode::Moldavian
        } else if same_text(code, "mr") {
            LanguageCode::Marathi
        } else if same_text(code, "ms") {
            LanguageCode::Malay
        } else if same_text(code, "mt") {
            LanguageCode::Maltese
        } else if same_text(code, "my") {
            LanguageCode::Burmese
        } else if same_text(code, "na") {
            LanguageCode::Nauru
        } else if same_text(code, "ne") {
            LanguageCode::Nepali
        } else if same_text(code, "nl") {
            LanguageCode::Dutch
        } else if same_text(code, "no") {
            LanguageCode::Norwegian
        } else if same_text(code, "oc") {
            LanguageCode::Occitan
        } else if same_text(code, "om") {
            LanguageCode::Oromo
        } else if same_text(code, "or") {
            LanguageCode::Oriya
        } else if same_text(code, "pa") {
            LanguageCode::Punjabi
        } else if same_text(code, "pl") {
            LanguageCode::Polish
        } else if same_text(code, "ps") {
            LanguageCode::Pashto
        } else if same_text(code, "pt") {
            LanguageCode::Portuguese
        } else if same_text(code, "qu") {
            LanguageCode::Quechua
        } else if same_text(code, "rm") {
            LanguageCode::RhaetoRomance
        } else if same_text(code, "rn") {
            LanguageCode::Kirundi
        } else if same_text(code, "ro") {
            LanguageCode::Romanian
        } else if same_text(code, "ru") {
            LanguageCode::Russian
        } else if same_text(code, "rw") {
            LanguageCode::Kinyarwanda
        } else if same_text(code, "sa") {
            LanguageCode::Sanskrit
        } else if same_text(code, "sd") {
            LanguageCode::Sindhi
        } else if same_text(code, "sg") {
            LanguageCode::Sangro
        } else if same_text(code, "sh") {
            LanguageCode::SerboCroatian
        } else if same_text(code, "si") {
            LanguageCode::Singhalese
        } else if same_text(code, "sk") {
            LanguageCode::Slovak
        } else if same_text(code, "sl") {
            LanguageCode::Slovenian
        } else if same_text(code, "sm") {
            LanguageCode::Samoan
        } else if same_text(code, "sn") {
            LanguageCode::Shona
        } else if same_text(code, "so") {
            LanguageCode::Somali
        } else if same_text(code, "sq") {
            LanguageCode::Albanian
        } else if same_text(code, "sr") {
            LanguageCode::Serbian
        } else if same_text(code, "ss") {
            LanguageCode::Siswati
        } else if same_text(code, "st") {
            LanguageCode::Sesotho
        } else if same_text(code, "su") {
            LanguageCode::Sudanese
        } else if same_text(code, "sv") {
            LanguageCode::Swedish
        } else if same_text(code, "sw") {
            LanguageCode::Swahili
        } else if same_text(code, "ta") {
            LanguageCode::Tamil
        } else if same_text(code, "te") {
            LanguageCode::Tegulu
        } else if same_text(code, "tg") {
            LanguageCode::Tajik
        } else if same_text(code, "th") {
            LanguageCode::Thai
        } else if same_text(code, "ti") {
            LanguageCode::Tigrinya
        } else if same_text(code, "tk") {
            LanguageCode::Turkmen
        } else if same_text(code, "tl") {
            LanguageCode::Filipino
        } else if same_text(code, "tn") {
            LanguageCode::Setswana
        } else if same_text(code, "to") {
            LanguageCode::Tonga
        } else if same_text(code, "tr") {
            LanguageCode::Turkish
        } else if same_text(code, "ts") {
            LanguageCode::Tsonga
        } else if same_text(code, "tt") {
            LanguageCode::Tatar
        } else if same_text(code, "tw") {
            LanguageCode::Twi
        } else if same_text(code, "ug") {
            LanguageCode::Uigur
        } else if same_text(code, "uk") {
            LanguageCode::Ukrainian
        } else if same_text(code, "ur") {
            LanguageCode::Urdu
        } else if same_text(code, "uz") {
            LanguageCode::Uzbek
        } else if same_text(code, "vi") {
            LanguageCode::Vietnamese
        } else if same_text(code, "vo") {
            LanguageCode::Volapuk
        } else if same_text(code, "wo") {
            LanguageCode::Wolof
        } else if same_text(code, "xh") {
            LanguageCode::Xhosa
        } else if same_text(code, "yi") {
            LanguageCode::Yiddish
        } else if same_text(code, "yo") {
            LanguageCode::Yoruba
        } else if same_text(code, "za") {
            LanguageCode::Zhuang
        } else if same_text(code, "zh") {
            LanguageCode::Chinese
        } else if same_text(code, "zu") {
            LanguageCode::Zulu
        } else if same_text(code, "zh-hk") {
            LanguageCode::TraditionalChinese
        } else if same_text(code, "pt-br") {
            LanguageCode::BrazilianPortugese
        } else if same_text(code, "es-la") {
            LanguageCode::LatinAmericanSpanish
        } else if same_text(code, "ja-ro") {
            LanguageCode::RomanizedJapanese
        } else if same_text(code, "ko-ro") {
            LanguageCode::RomanizedKorean
        } else if same_text(code, "zh-ro") {
            LanguageCode::RomanizedChinese
        } else if same_text(code, "NULL") {
            LanguageCode::Null
        } else {
            LanguageCode::Any(String::from_str(code))
        }
    }
}

/// Reading the code of a language gives the language back, for every
/// language of the list but Tagalog, whose code is read as Filipino.
#[verifier::rlimit(100)]
pub proof fn lemma_code_is_read_back(language: LanguageCode)
    requires
        !(language is Any),
        !(language is Tagalog),
    ensures
        LanguageCode::known(language.text()) == Some(language),
{
    reveal_strlit("aa");
    assert("aa"@.len() == 2 && "aa"@[0] == 'a' && "aa"@[1] == 'a');
    reveal_strlit("ab");
    assert("ab"@.len() == 2 && "ab"@[0] == 'a' && "ab"@[1] == 'b');
    reveal_strlit("af");
    assert("af"@.len() == 2 && "af"@[0] == 'a' && "af"@[1] == 'f');
    reveal_strlit("am");
    assert("am"@.len() == 2 && "am"@[0] == 'a' && "am"@[1] == 'm');
    reveal_strlit("ar");
    assert("ar"@.len() == 2 && "ar"@[0] == 'a' && "ar"@[1] == 'r');
    reveal_strlit("as");
    assert("as"@.len() == 2 && "as"@[0] == 'a' && "as"@[1] == 's');
    reveal_strlit("ay");
    assert("ay"@.len() == 2 && "ay"@[0] == 'a' && "ay"@[1] == 'y');
    reveal_strlit("az");
    assert("az"@.len() == 2 && "az"@[0] == 'a' && "az"@[1] == 'z');
    reveal_strlit("ba");
    assert("ba"@.len() == 2 && "ba"@[0] == 'b' && "ba"@[1] == 'a');
    reveal_strlit("be");
    assert("be"@.len() == 2 && "be"@[0] == 'b' && "be"@[1] == 'e');
    reveal_strlit("bg");
    assert("bg"@.len() == 2 && "bg"@[0] == 'b' && "bg"@[1] == 'g');
    reveal_strlit("bh");
    assert("bh"@.len() == 2 && "bh"@[0] == 'b' && "bh"@[1] == 'h');
    reveal_strlit("bi");
    assert("bi"@.len() == 2 && "bi"@[0] == 'b' && "bi"@[1] == 'i');
    reveal_strlit("bn");
    assert("bn"@.len() == 2 && "bn"@[0] == 'b' && "bn"@[1] == 'n');
    reveal_strlit("bo");
    assert("bo"@.len() == 2 && "bo"@[0] == 'b' && "bo"@[1] == 'o');
    reveal_strlit("br");
    assert("br"@.len() == 2 && "br"@[0] == 'b' && "br"@[1] == 'r');
    reveal_strlit("ca");
    assert("ca"@.len() == 2 && "ca"@[0] == 'c' && "ca"@[1] == 'a');
    reveal_strlit("co");
    assert("co"@.len() == 2 && "co"@[0] == 'c' && "co"@[1] == 'o');
    reveal_strlit("cs");
    assert("cs"@.len() == 2 && "cs"@[0] == 'c' && "cs"@[1] == 's');
    reveal_strlit("cy");
    assert("cy"@.len() == 2 && "cy"@[0] == 'c' && "cy"@[1] == 'y');
    reveal_strlit("da");
    assert("da"@.len() == 2 && "da"@[0] == 'd' && "da"@[1] == 'a');
    reveal_strlit("de");
    assert("de"@.len() == 2 && "de"@[0] == 'd' && "de"@[1] == 'e');
    reveal_strlit("dz");
    assert("dz"@.len() == 2 && "dz"@[0] == 'd' && "dz"@[1] == 'z');
    reveal_strlit("el");
    assert("el"@.len() == 2 && "el"@[0] == 'e' && "el"@[1] == 'l');
    reveal_strlit("en");
    assert("en"@.len() == 2 && "en"@[0] == 'e' && "en"@[1] == 'n');
    reveal_strlit("eo");
    assert("eo"@.len() == 2 && "eo"@[0] == 'e' && "eo"@[1] == 'o');
    reveal_strlit("es");
    assert("es"@.len() == 2 && "es"@[0] == 'e' && "es"@[1] == 's');
    reveal_strlit("et");
    assert("et"@.len() == 2 && "et"@[0] == 'e' && "et"@[1] == 't');
    reveal_strlit("eu");
    assert("eu"@.len() == 2 && "eu"@[0] == 'e' && "eu"@[1] == 'u');
    reveal_strlit("fa");
    assert("fa"@.len() == 2 && "fa"@[0] == 'f' && "fa"@[1] == 'a');
    reveal_strlit("fi");
    assert("fi"@.len() == 2 && "fi"@[0] == 'f' && "fi"@[1] == 'i');
    reveal_strlit("fj");
    assert("fj"@.len() == 2 && "fj"@[0] == 'f' && "fj"@[1] == 'j');
    reveal_strlit("fo");
    assert("fo"@.len() == 2 && "fo"@[0] == 'f' && "fo"@[1] == 'o');
    reveal_strlit("fr");
    assert("fr"@.len() == 2 && "fr"@[0] == 'f' && "fr"@[1] == 'r');
    reveal_strlit("fy");
    assert("fy"@.len() == 2 && "fy"@[0] == 'f' && "fy"@[1] == 'y');
    reveal_strlit("ga");
    assert("ga"@.len() == 2 && "ga"@[0] == 'g' && "ga"@[1] == 'a');
    reveal_strlit("gd");
    assert("gd"@.len() == 2 && "gd"@[0] == 'g' && "gd"@[1] == 'd');
    reveal_strlit("gl");
    assert("gl"@.len() == 2 && "gl"@[0] == 'g' && "gl"@[1] == 'l');
    reveal_strlit("gn");
    assert("gn"@.len() == 2 && "gn"@[0] == 'g' && "gn"@[1] == 'n');
    reveal_strlit("gu");
    assert("gu"@.len() == 2 && "gu"@[0] == 'g' && "gu"@[1] == 'u');
    reveal_strlit("ha");
    assert("ha"@.len() == 2 && "ha"@[0] == 'h' && "ha"@[1] == 'a');
    reveal_strlit("hi");
    assert("hi"@.len() == 2 && "hi"@[0] == 'h' && "hi"@[1] == 'i');
    reveal_strlit("he");
    assert("he"@.len() == 2 && "he"@[0] == 'h' && "he"@[1] == 'e');
    reveal_strlit("hr");
    assert("hr"@.len() == 2 && "hr"@[0] == 'h' && "hr"@[1] == 'r');
    reveal_strlit("hu");
    assert("hu"@.len() == 2 && "hu"@[0] == 'h' && "hu"@[1] == 'u');
    reveal_strlit("hy");
    assert("hy"@.len() == 2 && "hy"@[0] == 'h' && "hy"@[1] == 'y');
    reveal_strlit("ia");
    assert("ia"@.len() == 2 && "ia"@[0] == 'i' && "ia"@[1] == 'a');
    reveal_strlit("id");
    assert("id"@.len() == 2 && "id"@[0] == 'i' && "id"@[1] == 'd');
    reveal_strlit("ie");
    assert("ie"@.len() == 2 && "ie"@[0] == 'i' && "ie"@[1] == 'e');
    reveal_strlit("ik");
    assert("ik"@.len() == 2 && "ik"@[0] == 'i' && "ik"@[1] == 'k');
    reveal_strlit("is");
    assert("is"@.len() == 2 && "is"@[0] == 'i' && "is"@[1] == 's');
    reveal_strlit("it");
    assert("it"@.len() == 2 && "it"@[0] == 'i' && "it"@[1] == 't');
    reveal_strlit("iu");
    assert("iu"@.len() == 2 && "iu"@[0] == 'i' && "iu"@[1] == 'u');
    reveal_strlit("ja");
    assert("ja"@.len() == 2 && "ja"@[0] == 'j' && "ja"@[1] == 'a');
    reveal_strlit("jw");
    assert("jw"@.len() == 2 && "jw"@[0] == 'j' && "jw"@[1] == 'w');
    reveal_strlit("ka");
    assert("ka"@.len() == 2 && "ka"@[0] == 'k' && "ka"@[1] == 'a');
    reveal_strlit("kk");
    assert("kk"@.len() == 2 && "kk"@[0] == 'k' && "kk"@[1] == 'k');
    reveal_strlit("kl");
    assert("kl"@.len() == 2 && "kl"@[0] == 'k' && "kl"@[1] == 'l');
    reveal_strlit("km");
    assert("km"@.len() == 2 && "km"@[0] == 'k' && "km"@[1] == 'm');
    reveal_strlit("kn");
    assert("kn"@.len() == 2 && "kn"@[0] == 'k' && "kn"@[1] == 'n');
    reveal_strlit("ko");
    assert("ko"@.len() == 2 && "ko"@[0] == 'k' && "ko"@[1] == 'o');
    reveal_strlit("ks");
    assert("ks"@.len() == 2 && "ks"@[0] == 'k' && "ks"@[1] == 's');
    reveal_strlit("ku");
    assert("ku"@.len() == 2 && "ku"@[0] == 'k' && "ku"@[1] == 'u');
    reveal_strlit("ky");
    assert("ky"@.len() == 2 && "ky"@[0] == 'k' && "ky"@[1] == 'y');
    reveal_strlit("la");
    assert("la"@.len() == 2 && "la"@[0] == 'l' && "la"@[1] == 'a');
    reveal_strlit("ln");
    assert("ln"@.len() == 2 && "ln"@[0] == 'l' && "ln"@[1] == 'n');
    reveal_strlit("lo");
    assert("lo"@.len() == 2 && "lo"@[0] == 'l' && "lo"@[1] == 'o');
    reveal_strlit("lt");
    assert("lt"@.len() == 2 && "lt"@[0] == 'l' && "lt"@[1] == 't');
    reveal_strlit("lv");
    assert("lv"@.len() == 2 && "lv"@[0] == 'l' && "lv"@[1] == 'v');
    reveal_strlit("mg");
    assert("mg"@.len() == 2 && "mg"@[0] == 'm' && "mg"@[1] == 'g');
    reveal_strlit("mi");
    assert("mi"@.len() == 2 && "mi"@[0] == 'm' && "mi"@[1] == 'i');
    reveal_strlit("mk");
    assert("mk"@.len() == 2 && "mk"@[0] == 'm' && "mk"@[1] == 'k');
    reveal_strlit("ml");
    assert("ml"@.len() == 2 && "ml"@[0] == 'm' && "ml"@[1] == 'l');
    reveal_strlit("mn");
    assert("mn"@.len() == 2 && "mn"@[0] == 'm' && "mn"@[1] == 'n');
    reveal_strlit("mo");
    assert("mo"@.len() == 2 && "mo"@[0] == 'm' && "mo"@[1] == 'o');
    reveal_strlit("mr");
    assert("mr"@.len() == 2 && "mr"@[0] == 'm' && "mr"@[1] == 'r');
    reveal_strlit("ms");
    assert("ms"@.len() == 2 && "ms"@[0] == 'm' && "ms"@[1] == 's');
    reveal_strlit("mt");
    assert("mt"@.len() == 2 && "mt"@[0] == 'm' && "mt"@[1] == 't');
    reveal_strlit("my");
    assert("my"@.len() == 2 && "my"@[0] == 'm' && "my"@[1] == 'y');
    reveal_strlit("na");
    assert("na"@.len() == 2 && "na"@[0] == 'n' && "na"@[1] == 'a');
    reveal_strlit("ne");
    assert("ne"@.len() == 2 && "ne"@[0] == 'n' && "ne"@[1] == 'e');
    reveal_strlit("nl");
    assert("nl"@.len() == 2 && "nl"@[0] == 'n' && "nl"@[1] == 'l');
    reveal_strlit("no");
    assert("no"@.len() == 2 && "no"@[0] == 'n' && "no"@[1] == 'o');
    reveal_strlit("oc");
    assert("oc"@.len() == 2 && "oc"@[0] == 'o' && "oc"@[1] == 'c');
    reveal_strlit("om");
    assert("om"@.len() == 2 && "om"@[0] == 'o' && "om"@[1] == 'm');
    reveal_strlit("or");
    assert("or"@.len() == 2 && "or"@[0] == 'o' && "or"@[1] == 'r');
    reveal_strlit("pa");
    assert("pa"@.len() == 2 && "pa"@[0] == 'p' && "pa"@[1] == 'a');
    reveal_strlit("pl");
    assert("pl"@.len() == 2 && "pl"@[0] == 'p' && "pl"@[1] == 'l');
    reveal_strlit("ps");
    assert("ps"@.len() == 2 && "ps"@[0] == 'p' && "ps"@[1] == 's');
    reveal_strlit("pt");
    assert("pt"@.len() == 2 && "pt"@[0] == 'p' && "pt"@[1] == 't');
    reveal_strlit("qu");
    assert("qu"@.len() == 2 && "qu"@[0] == 'q' && "qu"@[1] == 'u');
    reveal_strlit("rm");
    assert("rm"@.len() == 2 && "rm"@[0] == 'r' && "rm"@[1] == 'm');
    reveal_strlit("rn");
    assert("rn"@.len() == 2 && "rn"@[0] == 'r' && "rn"@[1] == 'n');
    reveal_strlit("ro");
    assert("ro"@.len() == 2 && "ro"@[0] == 'r' && "ro"@[1] == 'o');
    reveal_strlit("ru");
    assert("ru"@.len() == 2 && "ru"@[0] == 'r' && "ru"@[1] == 'u');
    reveal_strlit("rw");
    assert("rw"@.len() == 2 && "rw"@[0] == 'r' && "rw"@[1] == 'w');
    reveal_strlit("sa");
    assert("sa"@.len() == 2 && "sa"@[0] == 's' && "sa"@[1] == 'a');
    reveal_strlit("sd");
    assert("sd"@.len() == 2 && "sd"@[0] == 's' && "sd"@[1] == 'd');
    reveal_strlit("sg");
    assert("sg"@.len() == 2 && "sg"@[0] == 's' && "sg"@[1] == 'g');
    reveal_strlit("sh");
    assert("sh"@.len() == 2 && "sh"@[0] == 's' && "sh"@[1] == 'h');
    reveal_strlit("si");
    assert("si"@.len() == 2 && "si"@[0] == 's' && "si"@[1] == 'i');
    reveal_strlit("sk");
    assert("sk"@.len() == 2 && "sk"@[0] == 's' && "sk"@[1] == 'k');
    reveal_strlit("sl");
    assert("sl"@.len() == 2 && "sl"@[0] == 's' && "sl"@[1] == 'l');
    reveal_strlit("sm");
    assert("sm"@.len() == 2 && "sm"@[0] == 's' && "sm"@[1] == 'm');
    reveal_strlit("sn");
    assert("sn"@.len() == 2 && "sn"@[0] == 's' && "sn"@[1] == 'n');
    reveal_strlit("so");
    assert("so"@.len() == 2 && "so"@[0] == 's' && "so"@[1] == 'o');
    reveal_strlit("sq");
    assert("sq"@.len() == 2 && "sq"@[0] == 's' && "sq"@[1] == 'q');
    reveal_strlit("sr");
    assert("sr"@.len() == 2 && "sr"@[0] == 's' && "sr"@[1] == 'r');
    reveal_strlit("ss");
    assert("ss"@.len() == 2 && "ss"@[0] == 's' && "ss"@[1] == 's');
    reveal_strlit("st");
    assert("st"@.len() == 2 && "st"@[0] == 's' && "st"@[1] == 't');
    reveal_strlit("su");
    assert("su"@.len() == 2 && "su"@[0] == 's' && "su"@[1] == 'u');
    reveal_strlit("sv");
    assert("sv"@.len() == 2 && "sv"@[0] == 's' && "sv"@[1] == 'v');
    reveal_strlit("sw");
    assert("sw"@.len() == 2 && "sw"@[0] == 's' && "sw"@[1] == 'w');
    reveal_strlit("ta");
    assert("ta"@.len() == 2 && "ta"@[0] == 't' && "ta"@[1] == 'a');
    reveal_strlit("te");
    assert("te"@.len() == 2 && "te"@[0] == 't' && "te"@[1] == 'e');
    reveal_strlit("tg");
    assert("tg"@.len() == 2 && "tg"@[0] == 't' && "tg"@[1] == 'g');
    reveal_strlit("th");
    assert("th"@.len() == 2 && "th"@[0] == 't' && "th"@[1] == 'h');
    reveal_strlit("ti");
    assert("ti"@.len() == 2 && "ti"@[0] == 't' && "ti"@[1] == 'i');
    reveal_strlit("tk");
    assert("tk"@.len() == 2 && "tk"@[0] == 't' && "tk"@[1] == 'k');
    reveal_strlit("tl");
    assert("tl"@.len() == 2 && "tl"@[0] == 't' && "tl"@[1] == 'l');
    reveal_strlit("tn");
    assert("tn"@.len() == 2 && "tn"@[0] == 't' && "tn"@[1] == 'n');
    reveal_strlit("to");
    assert("to"@.len() == 2 && "to"@[0] == 't' && "to"@[1] == 'o');
    reveal_strlit("tr");
    assert("tr"@.len() == 2 && "tr"@[0] == 't' && "tr"@[1] == 'r');
    reveal_strlit("ts");
    assert("ts"@.len() == 2 && "ts"@[0] == 't' && "ts"@[1] == 's');
    reveal_strlit("tt");
    assert("tt"@.len() == 2 && "tt"@[0] == 't' && "tt"@[1] == 't');
    reveal_strlit("tw");
    assert("tw"@.len() == 2 && "tw"@[0] == 't' && "tw"@[1] == 'w');
    reveal_strlit("ug");
    assert("ug"@.len() == 2 && "ug"@[0] == 'u' && "ug"@[1] == 'g');
    reveal_strlit("uk");
    assert("uk"@.len() == 2 && "uk"@[0] == 'u' && "uk"@[1] == 'k');
    reveal_strlit("ur");
    assert("ur"@.len() == 2 && "ur"@[0] == 'u' && "ur"@[1] == 'r');
    reveal_strlit("uz");
    assert("uz"@.len() == 2 && "uz"@[0] == 'u' && "uz"@[1] == 'z');
    reveal_strlit("vi");
    assert("vi"@.len() == 2 && "vi"@[0] == 'v' && "vi"@[1] == 'i');
    reveal_strlit("vo");
    assert("vo"@.len() == 2 && "vo"@[0] == 'v' && "vo"@[1] == 'o');
    reveal_strlit("wo");
    assert("wo"@.len() == 2 && "wo"@[0] == 'w' && "wo"@[1] == 'o');
    reveal_strlit("xh");
    assert("xh"@.len() == 2 && "xh"@[0] == 'x' && "xh"@[1] == 'h');
    reveal_strlit("yi");
    assert("yi"@.len() == 2 && "yi"@[0] == 'y' && "yi"@[1] == 'i');
    reveal_strlit("yo");
    assert("yo"@.len() == 2 && "yo"@[0] == 'y' && "yo"@[1] == 'o');
    reveal_strlit("za");
    assert("za"@.len() == 2 && "za"@[0] == 'z' && "za"@[1] == 'a');
    reveal_strlit("zh");
    assert("zh"@.len() == 2 && "zh"@[0] == 'z' && "zh"@[1] == 'h');
    reveal_strlit("zu");
    assert("zu"@.len() == 2 && "zu"@[0] == 'z' && "zu"@[1] == 'u');
    reveal_strlit("zh-hk");
    assert("zh-hk"@.len() == 5 && "zh-hk"@[0] == 'z' && "zh-hk"@[1] == 'h' && "zh-hk"@[2] == '-' && "zh-hk"@[3] == 'h' && "zh-hk"@[4] == 'k');
    reveal_strlit("pt-br");
    assert("pt-br"@.len() == 5 && "pt-br"@[0] == 'p' && "pt-br"@[1] == 't' && "pt-br"@[2] == '-' && "pt-br"@[3] == 'b' && "pt-br"@[4] == 'r');
    reveal_strlit("es-la");
    assert("es-la"@.len() == 5 && "es-la"@[0] == 'e' && "es-la"@[1] == 's' && "es-la"@[2] == '-' && "es-la"@[3] == 'l' && "es-la"@[4] == 'a');
    reveal_strlit("ja-ro");
    assert("ja-ro"@.len() == 5 && "ja-ro"@[0] == 'j' && "ja-ro"@[1] == 'a' && "ja-ro"@[2] == '-' && "ja-ro"@[3] == 'r' && "ja-ro"@[4] == 'o');
    reveal_strlit("ko-ro");
    assert("ko-ro"@.len() == 5 && "ko-ro"@[0] == 'k' && "ko-ro"@[1] == 'o' && "ko-ro"@[2] == '-' && "ko-ro"@[3] == 'r' && "ko-ro"@[4] == 'o');
    reveal_strlit("zh-ro");
    assert("zh-ro"@.len() == 5 && "zh-ro"@[0] == 'z' && "zh-ro"@[1] == 'h' && "zh-ro"@[2] == '-' && "zh-ro"@[3] == 'r' && "zh-ro"@[4] == 'o');
    reveal_strlit("NULL");
    assert("NULL"@.len() == 4 && "NULL"@[0] == 'N' && "NULL"@[1] == 'U' && "NULL"@[2] == 'L' && "NULL"@[3] == 'L');
}

} // verus!
