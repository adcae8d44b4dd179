//! Voices of the Kokoro text-to-speech model.
use vstd::prelude::*;
use vstd::string::StringExecFns;
use crate::error::VoxError;
use crate::text::{ascii_lower, is_ascii_str, lowercase, push_str, str_eq, to_lowercase};
use crate::types::{voice, voice_view, VoiceInfo};

verus! {

/// The Kokoro voices: id, display name, gender, language, accent.
pub open spec fn kokoro_voices() -> Seq<(Seq<char>, Seq<char>, Seq<char>, Seq<char>, Seq<char>)> {
    seq![
        ("af_heart"@, "Heart"@, "female"@, "en-US"@, "American"@),
        ("af_alloy"@, "Alloy"@, "female"@, "en-US"@, "American"@),
        ("af_aoede"@, "Aoede"@, "female"@, "en-US"@, "American"@),
        ("af_bella"@, "Bella"@, "female"@, "en-US"@, "American"@),
        ("af_jessica"@, "Jessica"@, "female"@, "en-US"@, "American"@),
        ("af_kore"@, "Kore"@, "female"@, "en-US"@, "American"@),
        ("af_nicole"@, "Nicole"@, "female"@, "en-US"@, "American"@),
        ("af_nova"@, "Nova"@, "female"@, "en-US"@, "American"@),
        ("af_river"@, "River"@, "female"@, "en-US"@, "American"@),
        ("af_sarah"@, "Sarah"@, "female"@, "en-US"@, "American"@),
        ("af_sky"@, "Sky"@, "female"@, "en-US"@, "American"@),
        ("af_maple"@, "Maple"@, "female"@, "en-US"@, "American"@),
        ("af_sol"@, "Sol"@, "female"@, "en-US"@, "American"@),
        ("am_adam"@, "Adam"@, "male"@, "en-US"@, "American"@),
        ("am_echo"@, "Echo"@, "male"@, "en-US"@, "American"@),
        ("am_eric"@, "Eric"@, "male"@, "en-US"@, "American"@),
        ("am_fenrir"@, "Fenrir"@, "male"@, "en-US"@, "American"@),
        ("am_liam"@, "Liam"@, "male"@, "en-US"@, "American"@),
        ("am_michael"@, "Michael"@, "male"@, "en-US"@, "American"@),
        ("am_onyx"@, "Onyx"@, "male"@, "en-US"@, "American"@),
        ("am_puck"@, "Puck"@, "male"@, "en-US"@, "American"@),
        ("am_santa"@, "Santa"@, "male"@, "en-US"@, "American"@),
        ("bf_alice"@, "Alice"@, "female"@, "en-GB"@, "British"@),
        ("bf_emma"@, "Emma"@, "female"@, "en-GB"@, "British"@),
        ("bf_isabella"@, "Isabella"@, "female"@, "en-GB"@, "British"@),
        ("bf_lily"@, "Lily"@, "female"@, "en-GB"@, "British"@),
        ("bf_vale"@, "Vale"@, "female"@, "en-GB"@, "British"@),
        ("bm_daniel"@, "Daniel"@, "male"@, "en-GB"@, "British"@),
        ("bm_fable"@, "Fable"@, "male"@, "en-GB"@, "British"@),
        ("bm_george"@, "George"@, "male"@, "en-GB"@, "British"@),
        ("bm_lewis"@, "Lewis"@, "male"@, "en-GB"@, "British"@),
        ("jf_alpha"@, "Alpha"@, "female"@, "ja"@, "Japanese"@),
        ("jf_gongitsune"@, "Gongitsune"@, "female"@, "ja"@, "Japanese"@),
        ("jf_tebukuro"@, "Tebukuro"@, "female"@, "ja"@, "Japanese"@),
        ("jf_nezumi"@, "Nezumi"@, "female"@, "ja"@, "Japanese"@),
        ("jm_kumo"@, "Kumo"@, "male"@, "ja"@, "Japanese"@),
        ("zf_xiaobei"@, "Xiaobei"@, "female"@, "zh"@, "Chinese"@),
        ("zf_xiaoni"@, "Xiaoni"@, "female"@, "zh"@, "Chinese"@),
        ("zf_xiaoxiao"@, "Xiaoxiao"@, "female"@, "zh"@, "Chinese"@),
        ("zf_xiaoyi"@, "Xiaoyi"@, "female"@, "zh"@, "Chinese"@),
        ("zm_yunjian"@, "Yunjian"@, "male"@, "zh"@, "Chinese"@),
        ("zm_yunxi"@, "Yunxi"@, "male"@, "zh"@, "Chinese"@),
        ("zm_yunxia"@, "Yunxia"@, "male"@, "zh"@, "Chinese"@),
        ("zm_yunyang"@, "Yunyang"@, "male"@, "zh"@, "Chinese"@),
        ("ef_dora"@, "Dora"@, "female"@, "es"@, "Spanish"@),
        ("em_alex"@, "Alex"@, "male"@, "es"@, "Spanish"@),
        ("em_santa"@, "Santa"@, "male"@, "es"@, "Spanish"@),
        ("ff_siwis"@, "Siwis"@, "female"@, "fr"@, "French"@),
        ("hf_alpha"@, "Alpha"@, "female"@, "hi"@, "Hindi"@),
        ("hf_beta"@, "Beta"@, "female"@, "hi"@, "Hindi"@),
        ("hm_omega"@, "Omega"@, "male"@, "hi"@, "Hindi"@),
        ("hm_psi"@, "Psi"@, "male"@, "hi"@, "Hindi"@),
        ("if_sara"@, "Sara"@, "female"@, "it"@, "Italian"@),
        ("im_nicola"@, "Nicola"@, "male"@, "it"@, "Italian"@),
        ("pf_dora"@, "Dora"@, "female"@, "pt-BR"@, "Brazilian"@),
        ("pm_alex"@, "Alex"@, "male"@, "pt-BR"@, "Brazilian"@),
        ("pm_santa"@, "Santa"@, "male"@, "pt-BR"@, "Brazilian"@),
    ]
}

/// The full list of supported Kokoro voices with their metadata.
pub fn voice_list() -> (r: Vec<VoiceInfo>)
    ensures
        r@.map_values(|v: VoiceInfo| voice_view(v)) == kokoro_voices(),
{
    let mut v: Vec<VoiceInfo> = Vec::new();
    v.push(voice("af_heart", "Heart", "female", "en-US", "American"));
    v.push(voice("af_alloy", "Alloy", "female", "en-US", "American"));
    v.push(voice("af_aoede", "Aoede", "female", "en-US", "American"));
    v.push(voice("af_bella", "Bella", "female", "en-US", "American"));
    v.push(voice("af_jessica", "Jessica", "female", "en-US", "American"));
    v.push(voice("af_kore", "Kore", "female", "en-US", "American"));
    v.push(voice("af_nicole", "Nicole", "female", "en-US", "American"));
    v.push(voice("af_nova", "Nova", "female", "en-US", "American"));
    v.push(voice("af_river", "River", "female", "en-US", "American"));
    v.push(voice("af_sarah", "Sarah", "female", "en-US", "American"));
    v.push(voice("af_sky", "Sky", "female", "en-US", "American"));
    v.push(voice("af_maple", "Maple", "female", "en-US", "American"));
    v.push(voice("af_sol", "Sol", "female", "en-US", "American"));
    v.push(voice("am_adam", "Adam", "male", "en-US", "American"));
    v.push(voice("am_echo", "Echo", "male", "en-US", "American"));
    v.push(voice("am_eric", "Eric", "male", "en-US", "American"));
    v.push(voice("am_fenrir", "Fenrir", "male", "en-US", "American"));
    v.push(voice("am_liam", "Liam", "male", "en-US", "American"));
    v.push(voice("am_michael", "Michael", "male", "en-US", "American"));
    v.push(voice("am_onyx", "Onyx", "male", "en-US", "American"));
    v.push(voice("am_puck", "Puck", "male", "en-US", "American"));
    v.push(voice("am_santa", "Santa", "male", "en-US", "American"));
    v.push(voice("bf_alice", "Alice", "female", "en-GB", "British"));
    v.push(voice("bf_emma", "Emma", "female", "en-GB", "British"));
    v.push(voice("bf_isabella", "Isabella", "female", "en-GB", "British"));
    v.push(voice("bf_lily", "Lily", "female", "en-GB", "British"));
    v.push(voice("bf_vale", "Vale", "female", "en-GB", "British"));
    v.push(voice("bm_daniel", "Daniel", "male", "en-GB", "British"));
    v.push(voice("bm_fable", "Fable", "male", "en-GB", "British"));
    v.push(voice("bm_george", "George", "male", "en-GB", "British"));
    v.push(voice("bm_lewis", "Lewis", "male", "en-GB", "British"));
    v.push(voice("jf_alpha", "Alpha", "female", "ja", "Japanese"));
    v.push(voice("jf_gongitsune", "Gongitsune", "female", "ja", "Japanese"));
    v.push(voice("jf_tebukuro", "Tebukuro", "female", "ja", "Japanese"));
    v.push(voice("jf_nezumi", "Nezumi", "female", "ja", "Japanese"));
    v.push(voice("jm_kumo", "Kumo", "male", "ja", "Japanese"));
    v.push(voice("zf_xiaobei", "Xiaobei", "female", "zh", "Chinese"));
    v.push(voice("zf_xiaoni", "Xiaoni", "female", "zh", "Chinese"));
    v.push(voice("zf_xiaoxiao", "Xiaoxiao", "female", "zh", "Chinese"));
    v.push(voice("zf_xiaoyi", "Xiaoyi", "female", "zh", "Chinese"));
    v.push(voice("zm_yunjian", "Yunjian", "male", "zh", "Chinese"));
    v.push(voice("zm_yunxi", "Yunxi", "male", "zh", "Chinese"));
    v.push(voice("zm_yunxia", "Yunxia", "male", "zh", "Chinese"));
    v.push(voice("zm_yunyang", "Yunyang", "male", "zh", "Chinese"));
    v.push(voice("ef_dora", "Dora", "female", "es", "Spanish"));
    v.push(voice("em_alex", "Alex", "male", "es", "Spanish"));
    v.push(voice("em_santa", "Santa", "male", "es", "Spanish"));
    v.push(voice("ff_siwis", "Siwis", "female", "fr", "French"));
    v.push(voice("hf_alpha", "Alpha", "female", "hi", "Hindi"));
    v.push(voice("hf_beta", "Beta", "female", "hi", "Hindi"));
    v.push(voice("hm_omega", "Omega", "male", "hi", "Hindi"));
    v.push(voice("hm_psi", "Psi", "male", "hi", "Hindi"));
    v.push(voice("if_sara", "Sara", "female", "it", "Italian"));
    v.push(voice("im_nicola", "Nicola", "male", "it", "Italian"));
    v.push(voice("pf_dora", "Dora", "female", "pt-BR", "Brazilian"));
    v.push(voice("pm_alex", "Alex", "male", "pt-BR", "Brazilian"));
    v.push(voice("pm_santa", "Santa", "male", "pt-BR", "Brazilian"));
    assert(v@.map_values(|x: VoiceInfo| voice_view(x)) =~= kokoro_voices());
    v
}

/// The voices of the Kokoro model, as the model names them.
#[derive(Debug, Clone, Copy, PartialEq, Eq, Structural)]
pub enum KokoroVoiceId {
    AfHeart,
    AfSky,
    AfBella,
    AfSarah,
    AfNicole,
    AfNova,
    AfRiver,
    AfAlloy,
    AfAoede,
    AfJessica,
    AfKore,
    AfMaple,
    AfSol,
    AmAdam,
    AmEcho,
    AmEric,
    AmLiam,
    AmMichael,
    AmOnyx,
    AmPuck,
    AmFenrir,
    AmSanta,
    BfAlice,
    BfEmma,
    BfIsabella,
    BfLily,
    BfVale,
    BmDaniel,
    BmFable,
    BmGeorge,
    BmLewis,
    JfAlpha,
    JfGongitsune,
    JfTebukuro,
    JfNezumi,
    JmKumo,
    ZfXiaobei,
    ZfXiaoni,
    ZfXiaoxiao,
    ZfXiaoyi,
    ZmYunjian,
    ZmYunxi,
    ZmYunxia,
    ZmYunyang,
    EfDora,
    EmAlex,
    EmSanta,
    FfSiwis,
    HfAlpha,
    HfBeta,
    HmOmega,
    HmPsi,
    IfSara,
    ImNicola,
    PfDora,
    PmAlex,
    PmSanta,
}

/// Voices of the second model release, which take an integer speed.
pub open spec fn integer_speed_voice(v: KokoroVoiceId) -> bool {
    v == KokoroVoiceId::AfMaple || v == KokoroVoiceId::AfSol || v == KokoroVoiceId::BfVale
}

impl KokoroVoiceId {
    /// Whether the voice takes its speed as an integer (second release).
    pub fn uses_integer_speed(&self) -> (r: bool)
        ensures
            r == integer_speed_voice(*self),
    {
        *self == KokoroVoiceId::AfMaple || *self == KokoroVoiceId::AfSol || *self == KokoroVoiceId::BfVale
    }
}

/// The voice a lower-cased voice id names.
pub open spec fn kokoro_voice_for(id: Seq<char>) -> Option<KokoroVoiceId> {
    if id == "af_heart"@ {
        Some(KokoroVoiceId::AfHeart)
    } else if id == "af_sky"@ {
        Some(KokoroVoiceId::AfSky)
    } else if id == "af_bella"@ {
        Some(KokoroVoiceId::AfBella)
    } else if id == "af_sarah"@ {
        Some(KokoroVoiceId::AfSarah)
    } else if id == "af_nicole"@ {
        Some(KokoroVoiceId::AfNicole)
    } else if id == "af_nova"@ {
        Some(KokoroVoiceId::AfNova)
    } else if id == "af_river"@ {
        Some(KokoroVoiceId::AfRiver)
    } else if id == "af_alloy"@ {
        Some(KokoroVoiceId::AfAlloy)
    } else if id == "af_aoede"@ {
        Some(KokoroVoiceId::AfAoede)
    } else if id == "af_jessica"@ {
        Some(KokoroVoiceId::AfJessica)
    } else if id == "af_kore"@ {
        Some(KokoroVoiceId::AfKore)
    } else if id == "af_maple"@ {
        Some(KokoroVoiceId::AfMaple)
    } else if id == "af_sol"@ {
        Some(KokoroVoiceId::AfSol)
    } else if id == "am_adam"@ {
        Some(KokoroVoiceId::AmAdam)
    } else if id == "am_echo"@ {
        Some(KokoroVoiceId::AmEcho)
    } else if id == "am_eric"@ {
        Some(KokoroVoiceId::AmEric)
    } else if id == "am_liam"@ {
        Some(KokoroVoiceId::AmLiam)
    } else if id == "am_michael"@ {
        Some(KokoroVoiceId::AmMichael)
    } else if id == "am_onyx"@ {
        Some(KokoroVoiceId::AmOnyx)
    } else if id == "am_puck"@ {
        Some(KokoroVoiceId::AmPuck)
    } else if id == "am_fenrir"@ {
        Some(KokoroVoiceId::AmFenrir)
    } else if id == "am_santa"@ {
        Some(KokoroVoiceId::AmSanta)
    } else if id == "bf_alice"@ {
        Some(KokoroVoiceId::BfAlice)
    } else if id == "bf_emma"@ {
        Some(KokoroVoiceId::BfEmma)
    } else if id == "bf_isabella"@ {
        Some(KokoroVoiceId::BfIsabella)
    } else if id == "bf_lily"@ {
        Some(KokoroVoiceId::BfLily)
    } else if id == "bf_vale"@ {
        Some(KokoroVoiceId::BfVale)
    } else if id == "bm_daniel"@ {
        Some(KokoroVoiceId::BmDaniel)
    } else if id == "bm_fable"@ {
        Some(KokoroVoiceId::BmFable)
    } else if id == "bm_george"@ {
        Some(KokoroVoiceId::BmGeorge)
    } else if id == "bm_lewis"@ {
        Some(KokoroVoiceId::BmLewis)
    } else if id == "jf_alpha"@ {
        Some(KokoroVoiceId::JfAlpha)
    } else if id == "jf_gongitsune"@ {
        Some(KokoroVoiceId::JfGongitsune)
    } else if id == "jf_tebukuro"@ {
        Some(KokoroVoiceId::JfTebukuro)
    } else if id == "jf_nezumi"@ {
        Some(KokoroVoiceId::JfNezumi)
    } else if id == "jm_kumo"@ {
        Some(KokoroVoiceId::JmKumo)
    } else if id == "zf_xiaobei"@ {
        Some(KokoroVoiceId::ZfXiaobei)
    } else if id == "zf_xiaoni"@ {
        Some(KokoroVoiceId::ZfXiaoni)
    } else if id == "zf_xiaoxiao"@ {
        Some(KokoroVoiceId::ZfXiaoxiao)
    } else if id == "zf_xiaoyi"@ {
        Some(KokoroVoiceId::ZfXiaoyi)
    } else if id == "zm_yunjian"@ {
        Some(KokoroVoiceId::ZmYunjian)
    } else if id == "zm_yunxi"@ {
        Some(KokoroVoiceId::ZmYunxi)
    } else if id == "zm_yunxia"@ {
        Some(KokoroVoiceId::ZmYunxia)
    } else if id == "zm_yunyang"@ {
        Some(KokoroVoiceId::ZmYunyang)
    } else if id == "ef_dora"@ {
        Some(KokoroVoiceId::EfDora)
    } else if id == "em_alex"@ {
        Some(KokoroVoiceId::EmAlex)
    } else if id == "em_santa"@ {
        Some(KokoroVoiceId::EmSanta)
    } else if id == "ff_siwis"@ {
        Some(KokoroVoiceId::FfSiwis)
    } else if id == "hf_alpha"@ {
        Some(KokoroVoiceId::HfAlpha)
    } else if id == "hf_beta"@ {
        Some(KokoroVoiceId::HfBeta)
    } else if id == "hm_omega"@ {
        Some(KokoroVoiceId::HmOmega)
    } else if id == "hm_psi"@ {
        Some(KokoroVoiceId::HmPsi)
    } else if id == "if_sara"@ {
        Some(KokoroVoiceId::IfSara)
    } else if id == "im_nicola"@ {
        Some(KokoroVoiceId::ImNicola)
    } else if id == "pf_dora"@ {
        Some(KokoroVoiceId::PfDora)
    } else if id == "pm_alex"@ {
        Some(KokoroVoiceId::PmAlex)
    } else if id == "pm_santa"@ {
        Some(KokoroVoiceId::PmSanta)
    } else {
        None
    }
}

/// The voice named by `lower`, a name already in lower case.
pub fn voice_for_lowered(lower: &str) -> (r: Option<KokoroVoiceId>)
    ensures
        r == kokoro_voice_for(lower@),
{
    let l = lower;
    if str_eq(l, "af_heart") {
        Some(KokoroVoiceId::AfHeart)
    } else if str_eq(l, "af_sky") {
        Some(KokoroVoiceId::AfSky)
    } else if str_eq(l, "af_bella") {
        Some(KokoroVoiceId::AfBella)
    } else if str_eq(l, "af_sarah") {
        Some(KokoroVoiceId::AfSarah)
    } else if str_eq(l, "af_nicole") {
        Some(KokoroVoiceId::AfNicole)
    } else if str_eq(l, "af_nova") {
        Some(KokoroVoiceId::AfNova)
    } else if str_eq(l, "af_river") {
        Some(KokoroVoiceId::AfRiver)
    } else if str_eq(l, "af_alloy") {
        Some(KokoroVoiceId::AfAlloy)
    } else if str_eq(l, "af_aoede") {
        Some(KokoroVoiceId::AfAoede)
    } else if str_eq(l, "af_jessica") {
        Some(KokoroVoiceId::AfJessica)
    } else if str_eq(l, "af_kore") {
        Some(KokoroVoiceId::AfKore)
    } else if str_eq(l, "af_maple") {
        Some(KokoroVoiceId::AfMaple)
    } else if str_eq(l, "af_sol") {
        Some(KokoroVoiceId::AfSol)
    } else if str_eq(l, "am_adam") {
        Some(KokoroVoiceId::AmAdam)
    } else if str_eq(l, "am_echo") {
        Some(KokoroVoiceId::AmEcho)
    } else if str_eq(l, "am_eric") {
        Some(KokoroVoiceId::AmEric)
    } else if str_eq(l, "am_liam") {
        Some(KokoroVoiceId::AmLiam)
    } else if str_eq(l, "am_michael") {
        Some(KokoroVoiceId::AmMichael)
    } else if str_eq(l, "am_onyx") {
        Some(KokoroVoiceId::AmOnyx)
    } else if str_eq(l, "am_puck") {
        Some(KokoroVoiceId::AmPuck)
    } else if str_eq(l, "am_fenrir") {
        Some(KokoroVoiceId::AmFenrir)
    } else if str_eq(l, "am_santa") {
        Some(KokoroVoiceId::AmSanta)
    } else if str_eq(l, "bf_alice") {
        Some(KokoroVoiceId::BfAlice)
    } else if str_eq(l, "bf_emma") {
        Some(KokoroVoiceId::BfEmma)
    } else if str_eq(l, "bf_isabella") {
        Some(KokoroVoiceId::BfIsabella)
    } else if str_eq(l, "bf_lily") {
        Some(KokoroVoiceId::BfLily)
    } else if str_eq(l, "bf_vale") {
        Some(KokoroVoiceId::BfVale)
    } else if str_eq(l, "bm_daniel") {
        Some(KokoroVoiceId::BmDaniel)
    } else if str_eq(l, "bm_fable") {
        Some(KokoroVoiceId::BmFable)
    } else if str_eq(l, "bm_george") {
        Some(KokoroVoiceId::BmGeorge)
    } else if str_eq(l, "bm_lewis") {
        Some(KokoroVoiceId::BmLewis)
    } else if str_eq(l, "jf_alpha") {
        Some(KokoroVoiceId::JfAlpha)
    } else if str_eq(l, "jf_gongitsune") {
        Some(KokoroVoiceId::JfGongitsune)
    } else if str_eq(l, "jf_tebukuro") {
        Some(KokoroVoiceId::JfTebukuro)
    } else if str_eq(l, "jf_nezumi") {
        Some(KokoroVoiceId::JfNezumi)
    } else if str_eq(l, "jm_kumo") {
        Some(KokoroVoiceId::JmKumo)
    } else if str_eq(l, "zf_xiaobei") {
        Some(KokoroVoiceId::ZfXiaobei)
    } else if str_eq(l, "zf_xiaoni") {
        Some(KokoroVoiceId::ZfXiaoni)
    } else if str_eq(l, "zf_xiaoxiao") {
        Some(KokoroVoiceId::ZfXiaoxiao)
    } else if str_eq(l, "zf_xiaoyi") {
        Some(KokoroVoiceId::ZfXiaoyi)
    } else if str_eq(l, "zm_yunjian") {
        Some(KokoroVoiceId::ZmYunjian)
    } else if str_eq(l, "zm_yunxi") {
        Some(KokoroVoiceId::ZmYunxi)
    } else if str_eq(l, "zm_yunxia") {
        Some(KokoroVoiceId::ZmYunxia)
    } else if str_eq(l, "zm_yunyang") {
        Some(KokoroVoiceId::ZmYunyang)
    } else if str_eq(l, "ef_dora") {
        Some(KokoroVoiceId::EfDora)
    } else if str_eq(l, "em_alex") {
        Some(KokoroVoiceId::EmAlex)
    } else if str_eq(l, "em_santa") {
        Some(KokoroVoiceId::EmSanta)
    } else if str_eq(l, "ff_siwis") {
        Some(KokoroVoiceId::FfSiwis)
    } else if str_eq(l, "hf_alpha") {
        Some(KokoroVoiceId::HfAlpha)
    } else if str_eq(l, "hf_beta") {
        Some(KokoroVoiceId::HfBeta)
    } else if str_eq(l, "hm_omega") {
        Some(KokoroVoiceId::HmOmega)
    } else if str_eq(l, "hm_psi") {
        Some(KokoroVoiceId::HmPsi)
    } else if str_eq(l, "if_sara") {
        Some(KokoroVoiceId::IfSara)
    } else if str_eq(l, "im_nicola") {
        Some(KokoroVoiceId::ImNicola)
    } else if str_eq(l, "pf_dora") {
        Some(KokoroVoiceId::PfDora)
    } else if str_eq(l, "pm_alex") {
        Some(KokoroVoiceId::PmAlex)
    } else if str_eq(l, "pm_santa") {
        Some(KokoroVoiceId::PmSanta)
    } else {
        None
    }
}

/// The voice named by `name`, compared without regard to case; an unknown
/// name is a `Tts` error.
pub fn parse_voice(name: &str) -> (r: Result<KokoroVoiceId, VoxError>)
    ensures
        match kokoro_voice_for(lowercase(name@)) {
            Some(v) => r == Ok::<KokoroVoiceId, VoxError>(v),
            None => r matches Err(VoxError::Tts(m)) && m@ == "unknown voice: "@ + name@,
        },
        is_ascii_str(name@) ==> match kokoro_voice_for(ascii_lower(name@)) {
            Some(v) => r == Ok::<KokoroVoiceId, VoxError>(v),
            None => r is Err,
        },
{
    let lower = to_lowercase(name);
    match voice_for_lowered(lower.as_str()) {
        Some(v) => Ok(v),
        None => {
            let mut m = String::from_str("unknown voice: ");
            push_str(&mut m, name);
            Err(VoxError::Tts(m))
        },
    }
}


/// Law: the catalogue lists 57 voices, and every id it lists names a voice
/// of the model (the parser accepts it once lower-cased).
pub proof fn lemma_listed_voices_known()
    ensures
        kokoro_voices().len() == 57,
        forall|i: int| 0 <= i < kokoro_voices().len() ==> kokoro_voice_for(#[trigger] kokoro_voices()[i].0) is Some,
{
    let v = kokoro_voices();
    assert forall|i: int| 0 <= i < v.len() implies kokoro_voice_for(#[trigger] v[i].0) is Some by {
        if i == 0 { assert(v[0].0 == "af_heart"@); }
        else if i == 1 { assert(v[1].0 == "af_alloy"@); }
        else if i == 2 { assert(v[2].0 == "af_aoede"@); }
        else if i == 3 { assert(v[3].0 == "af_bella"@); }
        else if i == 4 { assert(v[4].0 == "af_jessica"@); }
        else if i == 5 { assert(v[5].0 == "af_kore"@); }
        else if i == 6 { assert(v[6].0 == "af_nicole"@); }
        else if i == 7 { assert(v[7].0 == "af_nova"@); }
        else if i == 8 { assert(v[8].0 == "af_river"@); }
        else if i == 9 { assert(v[9].0 == "af_sarah"@); }
        else if i == 10 { assert(v[10].0 == "af_sky"@); }
        else if i == 11 { assert(v[11].0 == "af_maple"@); }
        else if i == 12 { assert(v[12].0 == "af_sol"@); }
        else if i == 13 { assert(v[13].0 == "am_adam"@); }
        else if i == 14 { assert(v[14].0 == "am_echo"@); }
        else if i == 15 { assert(v[15].0 == "am_eric"@); }
        else if i == 16 { assert(v[16].0 == "am_fenrir"@); }
        else if i == 17 { assert(v[17].0 == "am_liam"@); }
        else if i == 18 { assert(v[18].0 == "am_michael"@); }
        else if i == 19 { assert(v[19].0 == "am_onyx"@); }
        else if i == 20 { assert(v[20].0 == "am_puck"@); }
        else if i == 21 { assert(v[21].0 == "am_santa"@); }
        else if i == 22 { assert(v[22].0 == "bf_alice"@); }
        else if i == 23 { assert(v[23].0 == "bf_emma"@); }
        else if i == 24 { assert(v[24].0 == "bf_isabella"@); }
        else if i == 25 { assert(v[25].0 == "bf_lily"@); }
        else if i == 26 { assert(v[26].0 == "bf_vale"@); }
        else if i == 27 { assert(v[27].0 == "bm_daniel"@); }
        else if i == 28 { assert(v[28].0 == "bm_fable"@); }
        else if i == 29 { assert(v[29].0 == "bm_george"@); }
        else if i == 30 { assert(v[30].0 == "bm_lewis"@); }
        else if i == 31 { assert(v[31].0 == "jf_alpha"@); }
        else if i == 32 { assert(v[32].0 == "jf_gongitsune"@); }
        else if i == 33 { assert(v[33].0 == "jf_tebukuro"@); }
        else if i == 34 { assert(v[34].0 == "jf_nezumi"@); }
        else if i == 35 { assert(v[35].0 == "jm_kumo"@); }
        else if i == 36 { assert(v[36].0 == "zf_xiaobei"@); }
        else if i == 37 { assert(v[37].0 == "zf_xiaoni"@); }
        else if i == 38 { assert(v[38].0 == "zf_xiaoxiao"@); }
        else if i == 39 { assert(v[39].0 == "zf_xiaoyi"@); }
        else if i == 40 { assert(v[40].0 == "zm_yunjian"@); }
        else if i == 41 { assert(v[41].0 == "zm_yunxi"@); }
        else if i == 42 { assert(v[42].0 == "zm_yunxia"@); }
        else if i == 43 { assert(v[43].0 == "zm_yunyang"@); }
        else if i == 44 { assert(v[44].0 == "ef_dora"@); }
        else if i == 45 { assert(v[45].0 == "em_alex"@); }
        else if i == 46 { assert(v[46].0 == "em_santa"@); }
        else if i == 47 { assert(v[47].0 == "ff_siwis"@); }
        else if i == 48 { assert(v[48].0 == "hf_alpha"@); }
        else if i == 49 { assert(v[49].0 == "hf_beta"@); }
        else if i == 50 { assert(v[50].0 == "hm_omega"@); }
        else if i == 51 { assert(v[51].0 == "hm_psi"@); }
        else if i == 52 { assert(v[52].0 == "if_sara"@); }
        else if i == 53 { assert(v[53].0 == "im_nicola"@); }
        else if i == 54 { assert(v[54].0 == "pf_dora"@); }
        else if i == 55 { assert(v[55].0 == "pm_alex"@); }
        else { assert(v[56].0 == "pm_santa"@); }
    }
}


/// Law: the names the parser knows are exactly the listed ids, and every
/// listed id is accepted in any ASCII letter case.
pub proof fn lemma_known_voices_listed(x: Seq<char>)
    ensures
        kokoro_voice_for(x) is Some <==> exists|i: int| 0 <= i < kokoro_voices().len() && #[trigger] kokoro_voices()[i].0 == x,
        forall|name: Seq<char>| is_ascii_str(name) && ascii_lower(name) == x && kokoro_voice_for(x) is Some
            ==> #[trigger] kokoro_voice_for(ascii_lower(name)) is Some,
{
    lemma_listed_voices_known();
    let v = kokoro_voices();
    if x == "af_heart"@ {
        assert(v[0].0 == x);
    } else if x == "af_sky"@ {
        assert(v[10].0 == x);
    } else if x == "af_bella"@ {
        assert(v[3].0 == x);
    } else if x == "af_sarah"@ {
        assert(v[9].0 == x);
    } else if x == "af_nicole"@ {
        assert(v[6].0 == x);
    } else if x == "af_nova"@ {
        assert(v[7].0 == x);
    } else if x == "af_river"@ {
        assert(v[8].0 == x);
    } else if x == "af_alloy"@ {
        assert(v[1].0 == x);
    } else if x == "af_aoede"@ {
        assert(v[2].0 == x);
    } else if x == "af_jessica"@ {
        assert(v[4].0 == x);
    } else if x == "af_kore"@ {
        assert(v[5].0 == x);
    } else if x == "af_maple"@ {
        assert(v[11].0 == x);
    } else if x == "af_sol"@ {
        assert(v[12].0 == x);
    } else if x == "am_adam"@ {
        assert(v[13].0 == x);
    } else if x == "am_echo"@ {
        assert(v[14].0 == x);
    } else if x == "am_eric"@ {
        assert(v[15].0 == x);
    } else if x == "am_liam"@ {
        assert(v[17].0 == x);
    } else if x == "am_michael"@ {
        assert(v[18].0 == x);
    } else if x == "am_onyx"@ {
        assert(v[19].0 == x);
    } else if x == "am_puck"@ {
        assert(v[20].0 == x);
    } else if x == "am_fenrir"@ {
        assert(v[16].0 == x);
    } else if x == "am_santa"@ {
        assert(v[21].0 == x);
    } else if x == "bf_alice"@ {
        assert(v[22].0 == x);
    } else if x == "bf_emma"@ {
        assert(v[23].0 == x);
    } else if x == "bf_isabella"@ {
        assert(v[24].0 == x);
    } else if x == "bf_lily"@ {
        assert(v[25].0 == x);
    } else if x == "bf_vale"@ {
        assert(v[26].0 == x);
    } else if x == "bm_daniel"@ {
        assert(v[27].0 == x);
    } else if x == "bm_fable"@ {
        assert(v[28].0 == x);
    } else if x == "bm_george"@ {
        assert(v[29].0 == x);
    } else if x == "bm_lewis"@ {
        assert(v[30].0 == x);
    } else if x == "jf_alpha"@ {
        assert(v[31].0 == x);
    } else if x == "jf_gongitsune"@ {
        assert(v[32].0 == x);
    } else if x == "jf_tebukuro"@ {
        assert(v[33].0 == x);
    } else if x == "jf_nezumi"@ {
        assert(v[34].0 == x);
    } else if x == "jm_kumo"@ {
        assert(v[35].0 == x);
    } else if x == "zf_xiaobei"@ {
        assert(v[36].0 == x);
    } else if x == "zf_xiaoni"@ {
        assert(v[37].0 == x);
    } else if x == "zf_xiaoxiao"@ {
        assert(v[38].0 == x);
    } else if x == "zf_xiaoyi"@ {
        assert(v[39].0 == x);
    } else if x == "zm_yunjian"@ {
        assert(v[40].0 == x);
    } else if x == "zm_yunxi"@ {
        assert(v[41].0 == x);
    } else if x == "zm_yunxia"@ {
        assert(v[42].0 == x);
    } else if x == "zm_yunyang"@ {
        assert(v[43].0 == x);
    } else if x == "ef_dora"@ {
        assert(v[44].0 == x);
    } else if x == "em_alex"@ {
        assert(v[45].0 == x);
    } else if x == "em_santa"@ {
        assert(v[46].0 == x);
    } else if x == "ff_siwis"@ {
        assert(v[47].0 == x);
    } else if x == "hf_alpha"@ {
        assert(v[48].0 == x);
    } else if x == "hf_beta"@ {
        assert(v[49].0 == x);
    } else if x == "hm_omega"@ {
        assert(v[50].0 == x);
    } else if x == "hm_psi"@ {
        assert(v[51].0 == x);
    } else if x == "if_sara"@ {
        assert(v[52].0 == x);
    } else if x == "im_nicola"@ {
        assert(v[53].0 == x);
    } else if x == "pf_dora"@ {
        assert(v[54].0 == x);
    } else if x == "pm_alex"@ {
        assert(v[55].0 == x);
    } else if x == "pm_santa"@ {
        assert(v[56].0 == x);
    }
}

} // verus!
