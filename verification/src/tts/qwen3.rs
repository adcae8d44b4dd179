//! Voices of the Qwen3 text-to-speech model and the speaker and language
//! each voice id selects.
use vstd::prelude::*;
use vstd::string::StringExecFns;
use crate::error::VoxError;
use crate::text::{push_str, str_eq};
use crate::types::{voice, voice_view, VoiceInfo};

verus! {

/// The Qwen3 voices: id, display name, gender, language, accent.
pub open spec fn qwen3_voices() -> Seq<(Seq<char>, Seq<char>, Seq<char>, Seq<char>, Seq<char>)> {
    seq![
        ("en_us_female_1"@, "US Female 1 (Vivian)"@, "female"@, "en-US"@, "American"@),
        ("en_us_female_2"@, "US Female 2 (Vivian)"@, "female"@, "en-US"@, "American"@),
        ("en_us_male_1"@, "US Male 1 (Aiden)"@, "male"@, "en-US"@, "American"@),
        ("en_us_male_2"@, "US Male 2 (Aiden)"@, "male"@, "en-US"@, "American"@),
        ("en_gb_female_1"@, "GB Female 1 (Vivian)"@, "female"@, "en-GB"@, "British"@),
        ("en_gb_male_1"@, "GB Male 1 (Ethan)"@, "male"@, "en-GB"@, "British"@),
        ("zh_cn_female_1"@, "CN Female 1 (Vivian)"@, "female"@, "zh-CN"@, "Mandarin"@),
        ("zh_cn_female_2"@, "CN Female 2 (Vivian)"@, "female"@, "zh-CN"@, "Mandarin"@),
        ("zh_cn_male_1"@, "CN Male 1 (Ethan)"@, "male"@, "zh-CN"@, "Mandarin"@),
        ("ja_jp_female_1"@, "JP Female 1 (Vivian)"@, "female"@, "ja-JP"@, "Japanese"@),
        ("ja_jp_male_1"@, "JP Male 1 (Ethan)"@, "male"@, "ja-JP"@, "Japanese"@),
        ("es_es_female_1"@, "ES Female 1 (Vivian)"@, "female"@, "es-ES"@, "Spanish"@),
        ("es_es_male_1"@, "ES Male 1 (Ethan)"@, "male"@, "es-ES"@, "Spanish"@),
        ("fr_fr_female_1"@, "FR Female 1 (Vivian)"@, "female"@, "fr-FR"@, "French"@),
        ("fr_fr_male_1"@, "FR Male 1 (Ethan)"@, "male"@, "fr-FR"@, "French"@),
        ("de_de_female_1"@, "DE Female 1 (Vivian)"@, "female"@, "de-DE"@, "German"@),
        ("de_de_male_1"@, "DE Male 1 (Ethan)"@, "male"@, "de-DE"@, "German"@),
        ("it_it_female_1"@, "IT Female 1 (Vivian)"@, "female"@, "it-IT"@, "Italian"@),
        ("pt_br_female_1"@, "PT Female 1 (Vivian)"@, "female"@, "pt-BR"@, "Brazilian"@),
        ("ru_ru_female_1"@, "RU Female 1 (Vivian)"@, "female"@, "ru-RU"@, "Russian"@),
    ]
}

/// The full list of supported Qwen3 voices with their metadata.
pub fn voice_list() -> (r: Vec<VoiceInfo>)
    ensures
        r@.map_values(|v: VoiceInfo| voice_view(v)) == qwen3_voices(),
{
    let mut v: Vec<VoiceInfo> = Vec::new();
    v.push(voice("en_us_female_1", "US Female 1 (Vivian)", "female", "en-US", "American"));
    v.push(voice("en_us_female_2", "US Female 2 (Vivian)", "female", "en-US", "American"));
    v.push(voice("en_us_male_1", "US Male 1 (Aiden)", "male", "en-US", "American"));
    v.push(voice("en_us_male_2", "US Male 2 (Aiden)", "male", "en-US", "American"));
    v.push(voice("en_gb_female_1", "GB Female 1 (Vivian)", "female", "en-GB", "British"));
    v.push(voice("en_gb_male_1", "GB Male 1 (Ethan)", "male", "en-GB", "British"));
    v.push(voice("zh_cn_female_1", "CN Female 1 (Vivian)", "female", "zh-CN", "Mandarin"));
    v.push(voice("zh_cn_female_2", "CN Female 2 (Vivian)", "female", "zh-CN", "Mandarin"));
    v.push(voice("zh_cn_male_1", "CN Male 1 (Ethan)", "male", "zh-CN", "Mandarin"));
    v.push(voice("ja_jp_female_1", "JP Female 1 (Vivian)", "female", "ja-JP", "Japanese"));
    v.push(voice("ja_jp_male_1", "JP Male 1 (Ethan)", "male", "ja-JP", "Japanese"));
    v.push(voice("es_es_female_1", "ES Female 1 (Vivian)", "female", "es-ES", "Spanish"));
    v.push(voice("es_es_male_1", "ES Male 1 (Ethan)", "male", "es-ES", "Spanish"));
    v.push(voice("fr_fr_female_1", "FR Female 1 (Vivian)", "female", "fr-FR", "French"));
    v.push(voice("fr_fr_male_1", "FR Male 1 (Ethan)", "male", "fr-FR", "French"));
    v.push(voice("de_de_female_1", "DE Female 1 (Vivian)", "female", "de-DE", "German"));
    v.push(voice("de_de_male_1", "DE Male 1 (Ethan)", "male", "de-DE", "German"));
    v.push(voice("it_it_female_1", "IT Female 1 (Vivian)", "female", "it-IT", "Italian"));
    v.push(voice("pt_br_female_1", "PT Female 1 (Vivian)", "female", "pt-BR", "Brazilian"));
    v.push(voice("ru_ru_female_1", "RU Female 1 (Vivian)", "female", "ru-RU", "Russian"));
    assert(v@.map_values(|x: VoiceInfo| voice_view(x)) =~= qwen3_voices());
    v
}

/// The speakers of the Qwen3 model.
#[derive(Debug, Clone, Copy, PartialEq, Eq, Structural)]
pub enum Qwen3Speaker {
    Vivian,
    Aiden,
    Ryan,
    Serena,
}

/// The languages of the Qwen3 model.
#[derive(Debug, Clone, Copy, PartialEq, Eq, Structural)]
pub enum Qwen3Language {
    English,
    Chinese,
    Japanese,
    Spanish,
    French,
    German,
    Italian,
    Portuguese,
    Russian,
}

/// The speaker and language a voice id selects. US male voices use Aiden,
/// whose generation ends reliably with the small model.
pub open spec fn qwen3_voice_for(id: Seq<char>) -> Option<(Qwen3Speaker, Qwen3Language)> {
    if id == "en_us_female_1"@ || id == "en_us_female_2"@ {
        Some((Qwen3Speaker::Vivian, Qwen3Language::English))
    } else if id == "en_us_male_1"@ || id == "en_us_male_2"@ {
        Some((Qwen3Speaker::Aiden, Qwen3Language::English))
    } else if id == "en_gb_female_1"@ {
        Some((Qwen3Speaker::Vivian, Qwen3Language::English))
    } else if id == "en_gb_male_1"@ {
        Some((Qwen3Speaker::Ryan, Qwen3Language::English))
    } else if id == "zh_cn_female_1"@ || id == "zh_cn_female_2"@ {
        Some((Qwen3Speaker::Vivian, Qwen3Language::Chinese))
    } else if id == "zh_cn_male_1"@ {
        Some((Qwen3Speaker::Ryan, Qwen3Language::Chinese))
    } else if id == "ja_jp_female_1"@ {
        Some((Qwen3Speaker::Vivian, Qwen3Language::Japanese))
    } else if id == "ja_jp_male_1"@ {
        Some((Qwen3Speaker::Ryan, Qwen3Language::Japanese))
    } else if id == "es_es_female_1"@ {
        Some((Qwen3Speaker::Serena, Qwen3Language::Spanish))
    } else if id == "es_es_male_1"@ {
        Some((Qwen3Speaker::Ryan, Qwen3Language::Spanish))
    } else if id == "fr_fr_female_1"@ {
        Some((Qwen3Speaker::Serena, Qwen3Language::French))
    } else if id == "fr_fr_male_1"@ {
        Some((Qwen3Speaker::Ryan, Qwen3Language::French))
    } else if id == "de_de_female_1"@ {
        Some((Qwen3Speaker::Serena, Qwen3Language::German))
    } else if id == "de_de_male_1"@ {
        Some((Qwen3Speaker::Ryan, Qwen3Language::German))
    } else if id == "it_it_female_1"@ {
        Some((Qwen3Speaker::Serena, Qwen3Language::Italian))
    } else if id == "pt_br_female_1"@ {
        Some((Qwen3Speaker::Serena, Qwen3Language::Portuguese))
    } else if id == "ru_ru_female_1"@ {
        Some((Qwen3Speaker::Serena, Qwen3Language::Russian))
    } else {
        None
    }
}

/// The speaker and language of a voice id; an unknown id is a `Tts` error
/// pointing to the voice listing.
pub fn parse_voice(name: &str) -> (r: Result<(Qwen3Speaker, Qwen3Language), VoxError>)
    ensures
        match qwen3_voice_for(name@) {
            Some(v) => r == Ok::<(Qwen3Speaker, Qwen3Language), VoxError>(v),
            None => r matches Err(VoxError::Tts(m))
                && m@ == "unknown voice: "@ + name@ + ". Use /v1/voices to see available voices"@,
        },
{
    if str_eq(name, "en_us_female_1") || str_eq(name, "en_us_female_2") {
        Ok((Qwen3Speaker::Vivian, Qwen3Language::English))
    } else if str_eq(name, "en_us_male_1") || str_eq(name, "en_us_male_2") {
        Ok((Qwen3Speaker::Aiden, Qwen3Language::English))
    } else if str_eq(name, "en_gb_female_1") {
        Ok((Qwen3Speaker::Vivian, Qwen3Language::English))
    } else if str_eq(name, "en_gb_male_1") {
        Ok((Qwen3Speaker::Ryan, Qwen3Language::English))
    } else if str_eq(name, "zh_cn_female_1") || str_eq(name, "zh_cn_female_2") {
        Ok((Qwen3Speaker::Vivian, Qwen3Language::Chinese))
    } else if str_eq(name, "zh_cn_male_1") {
        Ok((Qwen3Speaker::Ryan, Qwen3Language::Chinese))
    } else if str_eq(name, "ja_jp_female_1") {
        Ok((Qwen3Speaker::Vivian, Qwen3Language::Japanese))
    } else if str_eq(name, "ja_jp_male_1") {
        Ok((Qwen3Speaker::Ryan, Qwen3Language::Japanese))
    } else if str_eq(name, "es_es_female_1") {
        Ok((Qwen3Speaker::Serena, Qwen3Language::Spanish))
    } else if str_eq(name, "es_es_male_1") {
        Ok((Qwen3Speaker::Ryan, Qwen3Language::Spanish))
    } else if str_eq(name, "fr_fr_female_1") {
        Ok((Qwen3Speaker::Serena, Qwen3Language::French))
    } else if str_eq(name, "fr_fr_male_1") {
        Ok((Qwen3Speaker::Ryan, Qwen3Language::French))
    } else if str_eq(name, "de_de_female_1") {
        Ok((Qwen3Speaker::Serena, Qwen3Language::German))
    } else if str_eq(name, "de_de_male_1") {
        Ok((Qwen3Speaker::Ryan, Qwen3Language::German))
    } else if str_eq(name, "it_it_female_1") {
        Ok((Qwen3Speaker::Serena, Qwen3Language::Italian))
    } else if str_eq(name, "pt_br_female_1") {
        Ok((Qwen3Speaker::Serena, Qwen3Language::Portuguese))
    } else if str_eq(name, "ru_ru_female_1") {
        Ok((Qwen3Speaker::Serena, Qwen3Language::Russian))
    } else {
        let mut m = String::from_str("unknown voice: ");
        push_str(&mut m, name);
        push_str(&mut m, ". Use /v1/voices to see available voices");
        Err(VoxError::Tts(m))
    }
}


/// Law: the catalogue lists twenty voices, and every voice it lists is
/// accepted by `parse_voice`.
pub proof fn lemma_listed_voices_parse()
    ensures
        qwen3_voices().len() == 20,
        forall|i: int| 0 <= i < qwen3_voices().len() ==> qwen3_voice_for(#[trigger] qwen3_voices()[i].0) is Some,
{
    let v = qwen3_voices();
    assert forall|i: int| 0 <= i < v.len() implies qwen3_voice_for(#[trigger] v[i].0) is Some by {
        if i == 0 { assert(v[0].0 == "en_us_female_1"@); }
        else if i == 1 { assert(v[1].0 == "en_us_female_2"@); }
        else if i == 2 { assert(v[2].0 == "en_us_male_1"@); }
        else if i == 3 { assert(v[3].0 == "en_us_male_2"@); }
        else if i == 4 { assert(v[4].0 == "en_gb_female_1"@); }
        else if i == 5 { assert(v[5].0 == "en_gb_male_1"@); }
        else if i == 6 { assert(v[6].0 == "zh_cn_female_1"@); }
        else if i == 7 { assert(v[7].0 == "zh_cn_female_2"@); }
        else if i == 8 { assert(v[8].0 == "zh_cn_male_1"@); }
        else if i == 9 { assert(v[9].0 == "ja_jp_female_1"@); }
        else if i == 10 { assert(v[10].0 == "ja_jp_male_1"@); }
        else if i == 11 { assert(v[11].0 == "es_es_female_1"@); }
        else if i == 12 { assert(v[12].0 == "es_es_male_1"@); }
        else if i == 13 { assert(v[13].0 == "fr_fr_female_1"@); }
        else if i == 14 { assert(v[14].0 == "fr_fr_male_1"@); }
        else if i == 15 { assert(v[15].0 == "de_de_female_1"@); }
        else if i == 16 { assert(v[16].0 == "de_de_male_1"@); }
        else if i == 17 { assert(v[17].0 == "it_it_female_1"@); }
        else if i == 18 { assert(v[18].0 == "pt_br_female_1"@); }
        else { assert(v[19].0 == "ru_ru_female_1"@); }
    }
}


/// The voice used when a request names none.
pub const DEFAULT_VOICE: &'static str = "en_us_female_1";

/// A few characters that tell the voice ids apart: the first, the fourth,
/// the length and the last.
pub open spec fn voice_sig(id: Seq<char>) -> (char, char, int, char) {
    (id[0], id[3], id.len() as int, id.last())
}

/// One of the ten language tags of the catalogue.
pub open spec fn qwen3_language_tag(t: Seq<char>) -> bool {
    t == "en-US"@ || t == "en-GB"@ || t == "zh-CN"@ || t == "ja-JP"@ || t == "es-ES"@ || t == "fr-FR"@ || t == "de-DE"@ || t == "it-IT"@ || t == "pt-BR"@ || t == "ru-RU"@
}

/// Law: the twenty voice ids are distinct, every voice carries one of the
/// ten language tags and each tag is carried by some voice, and the default
/// voice is listed.
pub proof fn lemma_catalogue_facts()
    ensures
        forall|i: int, j: int| 0 <= i < 20 && 0 <= j < 20 && i != j ==> #[trigger] qwen3_voices()[i].0 != #[trigger] qwen3_voices()[j].0,
        forall|i: int| 0 <= i < 20 ==> qwen3_language_tag(#[trigger] qwen3_voices()[i].3),
        forall|t: Seq<char>| qwen3_language_tag(t) ==> exists|i: int| 0 <= i < 20 && #[trigger] qwen3_voices()[i].3 == t,
        qwen3_voices()[0].0 == DEFAULT_VOICE@,
{
    let v = qwen3_voices();
    reveal_strlit("en_us_female_1");
    reveal_strlit("en_us_female_2");
    reveal_strlit("en_us_male_1");
    reveal_strlit("en_us_male_2");
    reveal_strlit("en_gb_female_1");
    reveal_strlit("en_gb_male_1");
    reveal_strlit("zh_cn_female_1");
    reveal_strlit("zh_cn_female_2");
    reveal_strlit("zh_cn_male_1");
    reveal_strlit("ja_jp_female_1");
    reveal_strlit("ja_jp_male_1");
    reveal_strlit("es_es_female_1");
    reveal_strlit("es_es_male_1");
    reveal_strlit("fr_fr_female_1");
    reveal_strlit("fr_fr_male_1");
    reveal_strlit("de_de_female_1");
    reveal_strlit("de_de_male_1");
    reveal_strlit("it_it_female_1");
    reveal_strlit("pt_br_female_1");
    reveal_strlit("ru_ru_female_1");
    assert(voice_sig(v[0].0) == ('e', 'u', 14int, '1'));
    assert(voice_sig(v[1].0) == ('e', 'u', 14int, '2'));
    assert(voice_sig(v[2].0) == ('e', 'u', 12int, '1'));
    assert(voice_sig(v[3].0) == ('e', 'u', 12int, '2'));
    assert(voice_sig(v[4].0) == ('e', 'g', 14int, '1'));
    assert(voice_sig(v[5].0) == ('e', 'g', 12int, '1'));
    assert(voice_sig(v[6].0) == ('z', 'c', 14int, '1'));
    assert(voice_sig(v[7].0) == ('z', 'c', 14int, '2'));
    assert(voice_sig(v[8].0) == ('z', 'c', 12int, '1'));
    assert(voice_sig(v[9].0) == ('j', 'j', 14int, '1'));
    assert(voice_sig(v[10].0) == ('j', 'j', 12int, '1'));
    assert(voice_sig(v[11].0) == ('e', 'e', 14int, '1'));
    assert(voice_sig(v[12].0) == ('e', 'e', 12int, '1'));
    assert(voice_sig(v[13].0) == ('f', 'f', 14int, '1'));
    assert(voice_sig(v[14].0) == ('f', 'f', 12int, '1'));
    assert(voice_sig(v[15].0) == ('d', 'd', 14int, '1'));
    assert(voice_sig(v[16].0) == ('d', 'd', 12int, '1'));
    assert(voice_sig(v[17].0) == ('i', 'i', 14int, '1'));
    assert(voice_sig(v[18].0) == ('p', 'b', 14int, '1'));
    assert(voice_sig(v[19].0) == ('r', 'r', 14int, '1'));
    assert forall|i: int, j: int| 0 <= i < 20 && 0 <= j < 20 && i != j implies #[trigger] v[i].0 != #[trigger] v[j].0 by {
        if v[i].0 == v[j].0 {
            assert(voice_sig(v[i].0) == voice_sig(v[j].0));
        }
    }
    assert(v[0].3 == "en-US"@);
    assert(v[4].3 == "en-GB"@);
    assert(v[6].3 == "zh-CN"@);
    assert(v[9].3 == "ja-JP"@);
    assert(v[11].3 == "es-ES"@);
    assert(v[13].3 == "fr-FR"@);
    assert(v[15].3 == "de-DE"@);
    assert(v[17].3 == "it-IT"@);
    assert(v[18].3 == "pt-BR"@);
    assert(v[19].3 == "ru-RU"@);
}

/// The language a catalogue language tag names.
pub open spec fn language_of_tag(tag: Seq<char>) -> Option<Qwen3Language> {
    if tag == "en-US"@ || tag == "en-GB"@ {
        Some(Qwen3Language::English)
    } else if tag == "zh-CN"@ {
        Some(Qwen3Language::Chinese)
    } else if tag == "ja-JP"@ {
        Some(Qwen3Language::Japanese)
    } else if tag == "es-ES"@ {
        Some(Qwen3Language::Spanish)
    } else if tag == "fr-FR"@ {
        Some(Qwen3Language::French)
    } else if tag == "de-DE"@ {
        Some(Qwen3Language::German)
    } else if tag == "it-IT"@ {
        Some(Qwen3Language::Italian)
    } else if tag == "pt-BR"@ {
        Some(Qwen3Language::Portuguese)
    } else if tag == "ru-RU"@ {
        Some(Qwen3Language::Russian)
    } else {
        None
    }
}

/// The first letter and the region's first letter of a language tag.
pub open spec fn tag_sig(tag: Seq<char>) -> (char, char) {
    (tag[0], tag[3])
}

/// The gender of a speaker's voice.
pub open spec fn speaker_gender(s: Qwen3Speaker) -> Seq<char> {
    match s {
        Qwen3Speaker::Vivian | Qwen3Speaker::Serena => "female"@,
        Qwen3Speaker::Aiden | Qwen3Speaker::Ryan => "male"@,
    }
}

/// Law: for every listed voice, `parse_voice` selects the language that the
/// catalogue's tag for that voice names, and a speaker of the gender that
/// the catalogue gives the voice.
pub proof fn lemma_voice_language_follows_tag()
    ensures
        forall|i: int| 0 <= i < qwen3_voices().len() ==> {
            &&& qwen3_voice_for(#[trigger] qwen3_voices()[i].0) is Some
            &&& language_of_tag(qwen3_voices()[i].3) == Some(qwen3_voice_for(qwen3_voices()[i].0).unwrap().1)
            &&& speaker_gender(qwen3_voice_for(qwen3_voices()[i].0).unwrap().0) == qwen3_voices()[i].2
        },
{
    let v = qwen3_voices();
    reveal_strlit("en_us_female_1");
    reveal_strlit("en_us_female_2");
    reveal_strlit("en_us_male_1");
    reveal_strlit("en_us_male_2");
    reveal_strlit("en_gb_female_1");
    reveal_strlit("en_gb_male_1");
    reveal_strlit("zh_cn_female_1");
    reveal_strlit("zh_cn_female_2");
    reveal_strlit("zh_cn_male_1");
    reveal_strlit("ja_jp_female_1");
    reveal_strlit("ja_jp_male_1");
    reveal_strlit("es_es_female_1");
    reveal_strlit("es_es_male_1");
    reveal_strlit("fr_fr_female_1");
    reveal_strlit("fr_fr_male_1");
    reveal_strlit("de_de_female_1");
    reveal_strlit("de_de_male_1");
    reveal_strlit("it_it_female_1");
    reveal_strlit("pt_br_female_1");
    reveal_strlit("ru_ru_female_1");
    reveal_strlit("en-US");
    reveal_strlit("en-GB");
    reveal_strlit("zh-CN");
    reveal_strlit("ja-JP");
    reveal_strlit("es-ES");
    reveal_strlit("fr-FR");
    reveal_strlit("de-DE");
    reveal_strlit("it-IT");
    reveal_strlit("pt-BR");
    reveal_strlit("ru-RU");
    assert(voice_sig(v[0].0) == ('e', 'u', 14int, '1'));
    assert(voice_sig(v[1].0) == ('e', 'u', 14int, '2'));
    assert(voice_sig(v[2].0) == ('e', 'u', 12int, '1'));
    assert(voice_sig(v[3].0) == ('e', 'u', 12int, '2'));
    assert(voice_sig(v[4].0) == ('e', 'g', 14int, '1'));
    assert(voice_sig(v[5].0) == ('e', 'g', 12int, '1'));
    assert(voice_sig(v[6].0) == ('z', 'c', 14int, '1'));
    assert(voice_sig(v[7].0) == ('z', 'c', 14int, '2'));
    assert(voice_sig(v[8].0) == ('z', 'c', 12int, '1'));
    assert(voice_sig(v[9].0) == ('j', 'j', 14int, '1'));
    assert(voice_sig(v[10].0) == ('j', 'j', 12int, '1'));
    assert(voice_sig(v[11].0) == ('e', 'e', 14int, '1'));
    assert(voice_sig(v[12].0) == ('e', 'e', 12int, '1'));
    assert(voice_sig(v[13].0) == ('f', 'f', 14int, '1'));
    assert(voice_sig(v[14].0) == ('f', 'f', 12int, '1'));
    assert(voice_sig(v[15].0) == ('d', 'd', 14int, '1'));
    assert(voice_sig(v[16].0) == ('d', 'd', 12int, '1'));
    assert(voice_sig(v[17].0) == ('i', 'i', 14int, '1'));
    assert(voice_sig(v[18].0) == ('p', 'b', 14int, '1'));
    assert(voice_sig(v[19].0) == ('r', 'r', 14int, '1'));
    assert(tag_sig("en-US"@) == ('e', 'U'));
    assert(tag_sig("en-GB"@) == ('e', 'G'));
    assert(tag_sig("zh-CN"@) == ('z', 'C'));
    assert(tag_sig("ja-JP"@) == ('j', 'J'));
    assert(tag_sig("es-ES"@) == ('e', 'E'));
    assert(tag_sig("fr-FR"@) == ('f', 'F'));
    assert(tag_sig("de-DE"@) == ('d', 'D'));
    assert(tag_sig("it-IT"@) == ('i', 'I'));
    assert(tag_sig("pt-BR"@) == ('p', 'B'));
    assert(tag_sig("ru-RU"@) == ('r', 'R'));
    assert forall|i: int| 0 <= i < v.len() implies {
        &&& qwen3_voice_for(#[trigger] v[i].0) is Some
        &&& language_of_tag(v[i].3) == Some(qwen3_voice_for(v[i].0).unwrap().1)
        &&& speaker_gender(qwen3_voice_for(v[i].0).unwrap().0) == v[i].2
    } by {
        if i == 0 {
            assert(v[0].0 == "en_us_female_1"@ && v[0].3 == "en-US"@);
            assert(language_of_tag(v[0].3) == Some(Qwen3Language::English));
            assert(qwen3_voice_for(v[0].0).unwrap().1 == Qwen3Language::English);
        } else if i == 1 {
            assert(v[1].0 == "en_us_female_2"@ && v[1].3 == "en-US"@);
            assert(language_of_tag(v[1].3) == Some(Qwen3Language::English));
            assert(qwen3_voice_for(v[1].0).unwrap().1 == Qwen3Language::English);
        } else if i == 2 {
            assert(v[2].0 == "en_us_male_1"@ && v[2].3 == "en-US"@);
            assert(language_of_tag(v[2].3) == Some(Qwen3Language::English));
            assert(qwen3_voice_for(v[2].0).unwrap().1 == Qwen3Language::English);
        } else if i == 3 {
            assert(v[3].0 == "en_us_male_2"@ && v[3].3 == "en-US"@);
            assert(language_of_tag(v[3].3) == Some(Qwen3Language::English));
            assert(qwen3_voice_for(v[3].0).unwrap().1 == Qwen3Language::English);
        } else if i == 4 {
            assert(v[4].0 == "en_gb_female_1"@ && v[4].3 == "en-GB"@);
            assert(language_of_tag(v[4].3) == Some(Qwen3Language::English));
            assert(qwen3_voice_for(v[4].0).unwrap().1 == Qwen3Language::English);
        } else if i == 5 {
            assert(v[5].0 == "en_gb_male_1"@ && v[5].3 == "en-GB"@);
            assert(language_of_tag(v[5].3) == Some(Qwen3Language::English));
            assert(qwen3_voice_for(v[5].0).unwrap().1 == Qwen3Language::English);
        } else if i == 6 {
            assert(v[6].0 == "zh_cn_female_1"@ && v[6].3 == "zh-CN"@);
            assert(language_of_tag(v[6].3) == Some(Qwen3Language::Chinese));
            assert(qwen3_voice_for(v[6].0).unwrap().1 == Qwen3Language::Chinese);
        } else if i == 7 {
            assert(v[7].0 == "zh_cn_female_2"@ && v[7].3 == "zh-CN"@);
            assert(language_of_tag(v[7].3) == Some(Qwen3Language::Chinese));
            assert(qwen3_voice_for(v[7].0).unwrap().1 == Qwen3Language::Chinese);
        } else if i == 8 {
            assert(v[8].0 == "zh_cn_male_1"@ && v[8].3 == "zh-CN"@);
            assert(language_of_tag(v[8].3) == Some(Qwen3Language::Chinese));
            assert(qwen3_voice_for(v[8].0).unwrap().1 == Qwen3Language::Chinese);
        } else if i == 9 {
            assert(v[9].0 == "ja_jp_female_1"@ && v[9].3 == "ja-JP"@);
            assert(language_of_tag(v[9].3) == Some(Qwen3Language::Japanese));
            assert(qwen3_voice_for(v[9].0).unwrap().1 == Qwen3Language::Japanese);
        } else if i == 10 {
            assert(v[10].0 == "ja_jp_male_1"@ && v[10].3 == "ja-JP"@);
            assert(language_of_tag(v[10].3) == Some(Qwen3Language::Japanese));
            assert(qwen3_voice_for(v[10].0).unwrap().1 == Qwen3Language::Japanese);
        } else if i == 11 {
            assert(v[11].0 == "es_es_female_1"@ && v[11].3 == "es-ES"@);
            assert(language_of_tag(v[11].3) == Some(Qwen3Language::Spanish));
            assert(qwen3_voice_for(v[11].0).unwrap().1 == Qwen3Language::Spanish);
        } else if i == 12 {
            assert(v[12].0 == "es_es_male_1"@ && v[12].3 == "es-ES"@);
            assert(language_of_tag(v[12].3) == Some(Qwen3Language::Spanish));
            assert(qwen3_voice_for(v[12].0).unwrap().1 == Qwen3Language::Spanish);
        } else if i == 13 {
            assert(v[13].0 == "fr_fr_female_1"@ && v[13].3 == "fr-FR"@);
            assert(language_of_tag(v[13].3) == Some(Qwen3Language::French));
            assert(qwen3_voice_for(v[13].0).unwrap().1 == Qwen3Language::French);
        } else if i == 14 {
            assert(v[14].0 == "fr_fr_male_1"@ && v[14].3 == "fr-FR"@);
            assert(language_of_tag(v[14].3) == Some(Qwen3Language::French));
            assert(qwen3_voice_for(v[14].0).unwrap().1 == Qwen3Language::French);
        } else if i == 15 {
            assert(v[15].0 == "de_de_female_1"@ && v[15].3 == "de-DE"@);
            assert(language_of_tag(v[15].3) == Some(Qwen3Language::German));
            assert(qwen3_voice_for(v[15].0).unwrap().1 == Qwen3Language::German);
        } else if i == 16 {
            assert(v[16].0 == "de_de_male_1"@ && v[16].3 == "de-DE"@);
            assert(language_of_tag(v[16].3) == Some(Qwen3Language::German));
            assert(qwen3_voice_for(v[16].0).unwrap().1 == Qwen3Language::German);
        } else if i == 17 {
            assert(v[17].0 == "it_it_female_1"@ && v[17].3 == "it-IT"@);
            assert(language_of_tag(v[17].3) == Some(Qwen3Language::Italian));
            assert(qwen3_voice_for(v[17].0).unwrap().1 == Qwen3Language::Italian);
        } else if i == 18 {
            assert(v[18].0 == "pt_br_female_1"@ && v[18].3 == "pt-BR"@);
            assert(language_of_tag(v[18].3) == Some(Qwen3Language::Portuguese));
            assert(qwen3_voice_for(v[18].0).unwrap().1 == Qwen3Language::Portuguese);
        } else {
            assert(v[19].0 == "ru_ru_female_1"@ && v[19].3 == "ru-RU"@);
            assert(language_of_tag(v[19].3) == Some(Qwen3Language::Russian));
            assert(qwen3_voice_for(v[19].0).unwrap().1 == Qwen3Language::Russian);
        }
    }
}

} // verus!
