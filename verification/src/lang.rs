//! The transcription target language: either automatic detection or
//! one of the languages the decoder understands, with the short code
//! the inference engine is configured with.

use vstd::prelude::*;

verus! {

/// The target language of a transcription, or automatic detection.
#[derive(Copy, Clone, PartialEq, Eq, PartialOrd, Ord, Debug, Structural)]
pub enum Language {
    Auto,
    English,
    Chinese,
    German,
    Spanish,
    Russian,
    Korean,
    French,
    Japanese,
    Portuguese,
    Turkish,
    Polish,
    Catalan,
    Dutch,
    Arabic,
    Swedish,
    Italian,
    Indonesian,
    Hindi,
    Finnish,
    Vietnamese,
    Hebrew,
    Ukrainian,
    Greek,
    Malay,
    Czech,
    Romanian,
    Danish,
    Hungarian,
    Tamil,
    Norwegian,
    Thai,
    Urdu,
    Croatian,
    Bulgarian,
    Lithuanian,
    Latin,
    Maori,
    Malayalam,
    Welsh,
    Slovak,
    Telugu,
    Persian,
    Latvian,
    Bengali,
    Serbian,
    Azerbaijani,
    Slovenian,
    Kannada,
    Estonian,
    Macedonian,
    Breton,
    Basque,
    Icelandic,
    Armenian,
    Nepali,
    Mongolian,
    Bosnian,
    Kazakh,
    Albanian,
    Swahili,
    Galician,
    Marathi,
    Punjabi,
    Sinhala,
    Khmer,
    Shona,
    Yoruba,
    Somali,
    Afrikaans,
    Occitan,
    Georgian,
    Belarusian,
    Tajik,
    Sindhi,
    Gujarati,
    Amharic,
    Yiddish,
    Lao,
    Uzbek,
    Faroese,
    HaitianCreole,
    Pashto,
    Turkmen,
    Nynorsk,
    Maltese,
    Sanskrit,
    Luxembourgish,
    Myanmar,
    Tibetan,
    Tagalog,
    Malagasy,
    Assamese,
    Tatar,
    Hawaiian,
    Lingala,
    Hausa,
    Bashkir,
    Javanese,
    Sundanese,
}

impl Language {
    /// The short language code the inference engine is configured
    /// with.
    pub open spec fn code_spec(self) -> Seq<char> {
        match self {
            Language::Auto => "auto"@,
            Language::English => "en"@,
            Language::Chinese => "zh"@,
            Language::German => "de"@,
            Language::Spanish => "es"@,
            Language::Russian => "ru"@,
            Language::Korean => "ko"@,
            Language::French => "fr"@,
            Language::Japanese => "ja"@,
            Language::Portuguese => "pt"@,
            Language::Turkish => "tr"@,
            Language::Polish => "pl"@,
            Language::Catalan => "ca"@,
            Language::Dutch => "nl"@,
            Language::Arabic => "ar"@,
            Language::Swedish => "sv"@,
            Language::Italian => "it"@,
            Language::Indonesian => "id"@,
            Language::Hindi => "hi"@,
            Language::Finnish => "fi"@,
            Language::Vietnamese => "vi"@,
            Language::Hebrew => "he"@,
            Language::Ukrainian => "uk"@,
            Language::Greek => "el"@,
            Language::Malay => "ms"@,
            Language::Czech => "cs"@,
            Language::Romanian => "ro"@,
            Language::Danish => "da"@,
            Language::Hungarian => "hu"@,
            Language::Tamil => "ta"@,
            Language::Norwegian => "no"@,
            Language::Thai => "th"@,
            Language::Urdu => "ur"@,
            Language::Croatian => "hr"@,
            Language::Bulgarian => "bg"@,
            Language::Lithuanian => "lt"@,
            Language::Latin => "la"@,
            Language::Maori => "mi"@,
            Language::Malayalam => "ml"@,
            Language::Welsh => "cy"@,
            Language::Slovak => "sk"@,
            Language::Telugu => "te"@,
            Language::Persian => "fa"@,
            Language::Latvian => "lv"@,
            Language::Bengali => "bn"@,
            Language::Serbian => "sr"@,
            Language::Azerbaijani => "az"@,
            Language::Slovenian => "sl"@,
            Language::Kannada => "kn"@,
            Language::Estonian => "et"@,
            Language::Macedonian => "mk"@,
            Language::Breton => "br"@,
            Language::Basque => "eu"@,
            Language::Icelandic => "is"@,
            Language::Armenian => "hy"@,
            Language::Nepali => "ne"@,
            Language::Mongolian => "mn"@,
            Language::Bosnian => "bs"@,
            Language::Kazakh => "kk"@,
            Language::Albanian => "sq"@,
            Language::Swahili => "sw"@,
            Language::Galician => "gl"@,
            Language::Marathi => "mr"@,
            Language::Punjabi => "pa"@,
            Language::Sinhala => "si"@,
            Language::Khmer => "km"@,
            Language::Shona => "sn"@,
            Language::Yoruba => "yo"@,
            Language::Somali => "so"@,
            Language::Afrikaans => "af"@,
            Language::Occitan => "oc"@,
            Language::Georgian => "ka"@,
            Language::Belarusian => "be"@,
            Language::Tajik => "tg"@,
            Language::Sindhi => "sd"@,
            Language::Gujarati => "gu"@,
            Language::Amharic => "am"@,
            Language::Yiddish => "yi"@,
            Language::Lao => "lo"@,
            Language::Uzbek => "uz"@,
            Language::Faroese => "fo"@,
            Language::HaitianCreole => "ht"@,
            Language::Pashto => "ps"@,
            Language::Turkmen => "tk"@,
            Language::Nynorsk => "nn"@,
            Language::Maltese => "mt"@,
            Language::Sanskrit => "sa"@,
            Language::Luxembourgish => "lb"@,
            Language::Myanmar => "my"@,
            Language::Tibetan => "bo"@,
            Language::Tagalog => "tl"@,
            Language::Malagasy => "mg"@,
            Language::Assamese => "as"@,
            Language::Tatar => "tt"@,
            Language::Hawaiian => "haw"@,
            Language::Lingala => "ln"@,
            Language::Hausa => "ha"@,
            Language::Bashkir => "ba"@,
            Language::Javanese => "jw"@,
            Language::Sundanese => "su"@,
        }
    }

    /// The short language code the inference engine is configured
    /// with.
    pub fn code(&self) -> (r: &'static str)
        ensures
            r@ == self.code_spec(),
    {
        match self {
            Language::Auto => "auto",
            Language::English => "en",
            Language::Chinese => "zh",
            Language::German => "de",
            Language::Spanish => "es",
            Language::Russian => "ru",
            Language::Korean => "ko",
            Language::French => "fr",
            Language::Japanese => "ja",
            Language::Portuguese => "pt",
            Language::Turkish => "tr",
            Language::Polish => "pl",
            Language::Catalan => "ca",
            Language::Dutch => "nl",
            Language::Arabic => "ar",
            Language::Swedish => "sv",
            Language::Italian => "it",
            Language::Indonesian => "id",
            Language::Hindi => "hi",
            Language::Finnish => "fi",
            Language::Vietnamese => "vi",
            Language::Hebrew => "he",
            Language::Ukrainian => "uk",
            Language::Greek => "el",
            Language::Malay => "ms",
            Language::Czech => "cs",
            Language::Romanian => "ro",
            Language::Danish => "da",
            Language::Hungarian => "hu",
            Language::Tamil => "ta",
            Language::Norwegian => "no",
            Language::Thai => "th",
            Language::Urdu => "ur",
            Language::Croatian => "hr",
            Language::Bulgarian => "bg",
            Language::Lithuanian => "lt",
            Language::Latin => "la",
            Language::Maori => "mi",
            Language::Malayalam => "ml",
            Language::Welsh => "cy",
            Language::Slovak => "sk",
            Language::Telugu => "te",
            Language::Persian => "fa",
            Language::Latvian => "lv",
            Language::Bengali => "bn",
            Language::Serbian => "sr",
            Language::Azerbaijani => "az",
            Language::Slovenian => "sl",
            Language::Kannada => "kn",
            Language::Estonian => "et",
            Language::Macedonian => "mk",
            Language::Breton => "br",
            Language::Basque => "eu",
            Language::Icelandic => "is",
            Language::Armenian => "hy",
            Language::Nepali => "ne",
            Language::Mongolian => "mn",
            Language::Bosnian => "bs",
            Language::Kazakh => "kk",
            Language::Albanian => "sq",
            Language::Swahili => "sw",
            Language::Galician => "gl",
            Language::Marathi => "mr",
            Language::Punjabi => "pa",
            Language::Sinhala => "si",
            Language::Khmer => "km",
            Language::Shona => "sn",
            Language::Yoruba => "yo",
            Language::Somali => "so",
            Language::Afrikaans => "af",
            Language::Occitan => "oc",
            Language::Georgian => "ka",
            Language::Belarusian => "be",
            Language::Tajik => "tg",
            Language::Sindhi => "sd",
            Language::Gujarati => "gu",
            Language::Amharic => "am",
            Language::Yiddish => "yi",
            Language::Lao => "lo",
            Language::Uzbek => "uz",
            Language::Faroese => "fo",
            Language::HaitianCreole => "ht",
            Language::Pashto => "ps",
            Language::Turkmen => "tk",
            Language::Nynorsk => "nn",
            Language::Maltese => "mt",
            Language::Sanskrit => "sa",
            Language::Luxembourgish => "lb",
            Language::Myanmar => "my",
            Language::Tibetan => "bo",
            Language::Tagalog => "tl",
            Language::Malagasy => "mg",
            Language::Assamese => "as",
            Language::Tatar => "tt",
            Language::Hawaiian => "haw",
            Language::Lingala => "ln",
            Language::Hausa => "ha",
            Language::Bashkir => "ba",
            Language::Javanese => "jw",
            Language::Sundanese => "su",
        }
    }
}

} // verus!
