//! Device families and the catalogue of known models.
use vstd::prelude::*;
use crate::text::str_eq;

verus! {

/// The hardware family a model belongs to; it decides which features the
/// device offers.
#[derive(Debug, Clone, Copy, PartialEq, Eq, Hash, Structural)]
pub enum ModelBase {
    Unknown,
    B181,
    B157,
    B155,
    B163,
    B171,
    B162,
    B164,
    B168,
    B172,
    B173,
    B174,
}

impl ModelBase {
    /// The family a code names; every other code is `Unknown`.
    pub open spec fn of_code(code: Seq<char>) -> ModelBase {
        if code == "B181"@ {
            ModelBase::B181
        } else if code == "B157"@ {
            ModelBase::B157
        } else if code == "B155"@ {
            ModelBase::B155
        } else if code == "B163"@ {
            ModelBase::B163
        } else if code == "B171"@ {
            ModelBase::B171
        } else if code == "B162"@ {
            ModelBase::B162
        } else if code == "B164"@ {
            ModelBase::B164
        } else if code == "B168"@ {
            ModelBase::B168
        } else if code == "B172"@ {
            ModelBase::B172
        } else if code == "B173"@ {
            ModelBase::B173
        } else if code == "B174"@ {
            ModelBase::B174
        } else {
            ModelBase::Unknown
        }
    }

    pub fn from_code(code: &str) -> (r: Self)
        ensures
            r == Self::of_code(code@),
    {
        if str_eq(code, "B181") {
            Self::B181
        } else if str_eq(code, "B157") {
            Self::B157
        } else if str_eq(code, "B155") {
            Self::B155
        } else if str_eq(code, "B163") {
            Self::B163
        } else if str_eq(code, "B171") {
            Self::B171
        } else if str_eq(code, "B162") {
            Self::B162
        } else if str_eq(code, "B164") {
            Self::B164
        } else if str_eq(code, "B168") {
            Self::B168
        } else if str_eq(code, "B172") {
            Self::B172
        } else if str_eq(code, "B173") {
            Self::B173
        } else if str_eq(code, "B174") {
            Self::B174
        } else {
            Self::Unknown
        }
    }

    /// The code of each family.
    pub open spec fn code(self) -> &'static str {
        match self {
            ModelBase::Unknown => "UNKNOWN",
            ModelBase::B181 => "B181",
            ModelBase::B157 => "B157",
            ModelBase::B155 => "B155",
            ModelBase::B163 => "B163",
            ModelBase::B171 => "B171",
            ModelBase::B162 => "B162",
            ModelBase::B164 => "B164",
            ModelBase::B168 => "B168",
            ModelBase::B172 => "B172",
            ModelBase::B173 => "B173",
            ModelBase::B174 => "B174",
        }
    }

    pub fn as_str(&self) -> (r: &'static str)
        ensures
            r == self.code(),
    {
        match self {
            Self::Unknown => "UNKNOWN",
            Self::B181 => "B181",
            Self::B157 => "B157",
            Self::B155 => "B155",
            Self::B163 => "B163",
            Self::B171 => "B171",
            Self::B162 => "B162",
            Self::B164 => "B164",
            Self::B168 => "B168",
            Self::B172 => "B172",
            Self::B173 => "B173",
            Self::B174 => "B174",
        }
    }

    pub fn supports_case_led(self) -> (r: bool)
        ensures
            r == (self == ModelBase::B181),
    {
        matches!(self, Self::B181)
    }

    pub fn supports_personalized_anc(self) -> (r: bool)
        ensures
            r == (self == ModelBase::B155),
    {
        matches!(self, Self::B155)
    }

    pub fn supports_enhanced_bass(self) -> (r: bool)
        ensures
            r == (self == ModelBase::B171 || self == ModelBase::B172 || self == ModelBase::B168
                || self == ModelBase::B162 || self == ModelBase::B173),
    {
        matches!(self, Self::B171 | Self::B172 | Self::B168 | Self::B162 | Self::B173)
    }

    pub fn supports_in_ear_detection(self) -> (r: bool)
        ensures
            r == (self != ModelBase::B174),
    {
        !matches!(self, Self::B174)
    }

    pub fn supports_custom_eq(self) -> (r: bool)
        ensures
            r == (self != ModelBase::B181),
    {
        !matches!(self, Self::B181)
    }

    pub fn supports_listening_modes(self) -> (r: bool)
        ensures
            r == (self == ModelBase::B168 || self == ModelBase::B172),
    {
        matches!(self, Self::B168 | Self::B172)
    }

    /// Super Mic (dual-mode call microphone). Verified on B173 (Ear (3));
    /// other models may support it but are unconfirmed.
    pub fn supports_super_mic(self) -> (r: bool)
        ensures
            r == (self == ModelBase::B173),
    {
        matches!(self, Self::B173)
    }
}

impl core::str::FromStr for ModelBase {
    type Err = ();

    fn from_str(s: &str) -> (r: Result<Self, Self::Err>)
        ensures
            r == Ok::<ModelBase, ()>(ModelBase::of_code(s@)),
    {
        Ok(ModelBase::from_code(s))
    }
}

/// Every known family is read back from its code, and every code that names
/// a family is that family's code.
pub proof fn lemma_model_base_code_round_trip(base: ModelBase, code: Seq<char>)
    ensures
        base != ModelBase::Unknown ==> ModelBase::of_code(base.code()@) == base,
        ModelBase::of_code(code) != ModelBase::Unknown ==> ModelBase::of_code(code).code()@ == code,
{
    reveal_strlit("B181");
    reveal_strlit("B157");
    reveal_strlit("B155");
    reveal_strlit("B163");
    reveal_strlit("B171");
    reveal_strlit("B162");
    reveal_strlit("B164");
    reveal_strlit("B168");
    reveal_strlit("B172");
    reveal_strlit("B173");
    reveal_strlit("B174");
    assert("B181"@[2] != "B157"@[2]);
    assert("B181"@[2] != "B155"@[2]);
    assert("B181"@[2] != "B163"@[2]);
    assert("B181"@[2] != "B171"@[2]);
    assert("B181"@[2] != "B162"@[2]);
    assert("B181"@[2] != "B164"@[2]);
    assert("B181"@[2] != "B168"@[2]);
    assert("B181"@[2] != "B172"@[2]);
    assert("B181"@[2] != "B173"@[2]);
    assert("B181"@[2] != "B174"@[2]);
    assert("B157"@[3] != "B155"@[3]);
    assert("B157"@[2] != "B163"@[2]);
    assert("B157"@[2] != "B171"@[2]);
    assert("B157"@[2] != "B162"@[2]);
    assert("B157"@[2] != "B164"@[2]);
    assert("B157"@[2] != "B168"@[2]);
    assert("B157"@[2] != "B172"@[2]);
    assert("B157"@[2] != "B173"@[2]);
    assert("B157"@[2] != "B174"@[2]);
    assert("B155"@[2] != "B163"@[2]);
    assert("B155"@[2] != "B171"@[2]);
    assert("B155"@[2] != "B162"@[2]);
    assert("B155"@[2] != "B164"@[2]);
    assert("B155"@[2] != "B168"@[2]);
    assert("B155"@[2] != "B172"@[2]);
    assert("B155"@[2] != "B173"@[2]);
    assert("B155"@[2] != "B174"@[2]);
    assert("B163"@[2] != "B171"@[2]);
    assert("B163"@[3] != "B162"@[3]);
    assert("B163"@[3] != "B164"@[3]);
    assert("B163"@[3] != "B168"@[3]);
    assert("B163"@[2] != "B172"@[2]);
    assert("B163"@[2] != "B173"@[2]);
    assert("B163"@[2] != "B174"@[2]);
    assert("B171"@[2] != "B162"@[2]);
    assert("B171"@[2] != "B164"@[2]);
    assert("B171"@[2] != "B168"@[2]);
    assert("B171"@[3] != "B172"@[3]);
    assert("B171"@[3] != "B173"@[3]);
    assert("B171"@[3] != "B174"@[3]);
    assert("B162"@[3] != "B164"@[3]);
    assert("B162"@[3] != "B168"@[3]);
    assert("B162"@[2] != "B172"@[2]);
    assert("B162"@[2] != "B173"@[2]);
    assert("B162"@[2] != "B174"@[2]);
    assert("B164"@[3] != "B168"@[3]);
    assert("B164"@[2] != "B172"@[2]);
    assert("B164"@[2] != "B173"@[2]);
    assert("B164"@[2] != "B174"@[2]);
    assert("B168"@[2] != "B172"@[2]);
    assert("B168"@[2] != "B173"@[2]);
    assert("B168"@[2] != "B174"@[2]);
    assert("B172"@[3] != "B173"@[3]);
    assert("B172"@[3] != "B174"@[3]);
    assert("B173"@[3] != "B174"@[3]);
}

/// Each family is named by its own code (B181 by "B181", and so on), the
/// unknown family by "UNKNOWN"; a code names a family exactly when it is that
/// family's code.
pub proof fn lemma_model_base_code_table(base: ModelBase, code: Seq<char>)
    ensures
        (ModelBase::of_code(code) == ModelBase::B181) == (code == "B181"@),
        (ModelBase::of_code(code) == ModelBase::B157) == (code == "B157"@),
        (ModelBase::of_code(code) == ModelBase::B155) == (code == "B155"@),
        (ModelBase::of_code(code) == ModelBase::B163) == (code == "B163"@),
        (ModelBase::of_code(code) == ModelBase::B171) == (code == "B171"@),
        (ModelBase::of_code(code) == ModelBase::B162) == (code == "B162"@),
        (ModelBase::of_code(code) == ModelBase::B164) == (code == "B164"@),
        (ModelBase::of_code(code) == ModelBase::B168) == (code == "B168"@),
        (ModelBase::of_code(code) == ModelBase::B172) == (code == "B172"@),
        (ModelBase::of_code(code) == ModelBase::B173) == (code == "B173"@),
        (ModelBase::of_code(code) == ModelBase::B174) == (code == "B174"@),
        (base.code() == "B181") == (base == ModelBase::B181),
        (base.code() == "B157") == (base == ModelBase::B157),
        (base.code() == "B155") == (base == ModelBase::B155),
        (base.code() == "B163") == (base == ModelBase::B163),
        (base.code() == "B171") == (base == ModelBase::B171),
        (base.code() == "B162") == (base == ModelBase::B162),
        (base.code() == "B164") == (base == ModelBase::B164),
        (base.code() == "B168") == (base == ModelBase::B168),
        (base.code() == "B172") == (base == ModelBase::B172),
        (base.code() == "B173") == (base == ModelBase::B173),
        (base.code() == "B174") == (base == ModelBase::B174),
        (base.code() == "UNKNOWN") == (base == ModelBase::Unknown),
{
    reveal_strlit("B181");
    reveal_strlit("B157");
    reveal_strlit("B155");
    reveal_strlit("B163");
    reveal_strlit("B171");
    reveal_strlit("B162");
    reveal_strlit("B164");
    reveal_strlit("B168");
    reveal_strlit("B172");
    reveal_strlit("B173");
    reveal_strlit("B174");
    reveal_strlit("UNKNOWN");
    assert("B181"@[2] != "B157"@[2]);
    assert("B181"@[2] != "B155"@[2]);
    assert("B181"@[2] != "B163"@[2]);
    assert("B181"@[2] != "B171"@[2]);
    assert("B181"@[2] != "B162"@[2]);
    assert("B181"@[2] != "B164"@[2]);
    assert("B181"@[2] != "B168"@[2]);
    assert("B181"@[2] != "B172"@[2]);
    assert("B181"@[2] != "B173"@[2]);
    assert("B181"@[2] != "B174"@[2]);
    assert("B181"@[0] != "UNKNOWN"@[0]);
    assert("B157"@[3] != "B155"@[3]);
    assert("B157"@[2] != "B163"@[2]);
    assert("B157"@[2] != "B171"@[2]);
    assert("B157"@[2] != "B162"@[2]);
    assert("B157"@[2] != "B164"@[2]);
    assert("B157"@[2] != "B168"@[2]);
    assert("B157"@[2] != "B172"@[2]);
    assert("B157"@[2] != "B173"@[2]);
    assert("B157"@[2] != "B174"@[2]);
    assert("B157"@[0] != "UNKNOWN"@[0]);
    assert("B155"@[2] != "B163"@[2]);
    assert("B155"@[2] != "B171"@[2]);
    assert("B155"@[2] != "B162"@[2]);
    assert("B155"@[2] != "B164"@[2]);
    assert("B155"@[2] != "B168"@[2]);
    assert("B155"@[2] != "B172"@[2]);
    assert("B155"@[2] != "B173"@[2]);
    assert("B155"@[2] != "B174"@[2]);
    assert("B155"@[0] != "UNKNOWN"@[0]);
    assert("B163"@[2] != "B171"@[2]);
    assert("B163"@[3] != "B162"@[3]);
    assert("B163"@[3] != "B164"@[3]);
    assert("B163"@[3] != "B168"@[3]);
    assert("B163"@[2] != "B172"@[2]);
    assert("B163"@[2] != "B173"@[2]);
    assert("B163"@[2] != "B174"@[2]);
    assert("B163"@[0] != "UNKNOWN"@[0]);
    assert("B171"@[2] != "B162"@[2]);
    assert("B171"@[2] != "B164"@[2]);
    assert("B171"@[2] != "B168"@[2]);
    assert("B171"@[3] != "B172"@[3]);
    assert("B171"@[3] != "B173"@[3]);
    assert("B171"@[3] != "B174"@[3]);
    assert("B171"@[0] != "UNKNOWN"@[0]);
    assert("B162"@[3] != "B164"@[3]);
    assert("B162"@[3] != "B168"@[3]);
    assert("B162"@[2] != "B172"@[2]);
    assert("B162"@[2] != "B173"@[2]);
    assert("B162"@[2] != "B174"@[2]);
    assert("B162"@[0] != "UNKNOWN"@[0]);
    assert("B164"@[3] != "B168"@[3]);
    assert("B164"@[2] != "B172"@[2]);
    assert("B164"@[2] != "B173"@[2]);
    assert("B164"@[2] != "B174"@[2]);
    assert("B164"@[0] != "UNKNOWN"@[0]);
    assert("B168"@[2] != "B172"@[2]);
    assert("B168"@[2] != "B173"@[2]);
    assert("B168"@[2] != "B174"@[2]);
    assert("B168"@[0] != "UNKNOWN"@[0]);
    assert("B172"@[3] != "B173"@[3]);
    assert("B172"@[3] != "B174"@[3]);
    assert("B172"@[0] != "UNKNOWN"@[0]);
    assert("B173"@[3] != "B174"@[3]);
    assert("B173"@[0] != "UNKNOWN"@[0]);
    assert("B174"@[0] != "UNKNOWN"@[0]);
}

/// One model of the catalogue.
#[derive(Debug, Clone, Copy)]
pub struct ModelInfo {
    pub id: &'static str,
    pub name: &'static str,
    pub base: ModelBase,
    pub anc_capable: bool,
}

/// The catalogue of known models.
pub open spec fn model_table() -> Seq<ModelInfo> {
    seq![
        ModelInfo { id: "ear_1_white", name: "Nothing Ear (1)", base: ModelBase::B181, anc_capable: true },
        ModelInfo { id: "ear_1_black", name: "Nothing Ear (1)", base: ModelBase::B181, anc_capable: true },
        ModelInfo { id: "ear_stick", name: "Nothing Ear (stick)", base: ModelBase::B157, anc_capable: false },
        ModelInfo { id: "ear_2_white", name: "Nothing Ear (2)", base: ModelBase::B155, anc_capable: true },
        ModelInfo { id: "ear_2_black", name: "Nothing Ear (2)", base: ModelBase::B155, anc_capable: true },
        ModelInfo { id: "corsola_orange", name: "CMF Buds Pro", base: ModelBase::B163, anc_capable: true },
        ModelInfo { id: "corsola_black", name: "CMF Buds Pro", base: ModelBase::B163, anc_capable: true },
        ModelInfo { id: "corsola_white", name: "CMF Buds Pro", base: ModelBase::B163, anc_capable: true },
        ModelInfo { id: "entei_black", name: "Nothing Ear", base: ModelBase::B171, anc_capable: true },
        ModelInfo { id: "entei_white", name: "Nothing Ear", base: ModelBase::B171, anc_capable: true },
        ModelInfo { id: "cleffa_black", name: "Nothing Ear (a)", base: ModelBase::B162, anc_capable: true },
        ModelInfo { id: "cleffa_white", name: "Nothing Ear (a)", base: ModelBase::B162, anc_capable: true },
        ModelInfo { id: "cleffa_yellow", name: "Nothing Ear (a)", base: ModelBase::B162, anc_capable: true },
        ModelInfo { id: "crobat_orange", name: "CMF Neckband Pro", base: ModelBase::B164, anc_capable: true },
        ModelInfo { id: "crobat_white", name: "CMF Neckband Pro", base: ModelBase::B164, anc_capable: true },
        ModelInfo { id: "crobat_black", name: "CMF Neckband Pro", base: ModelBase::B164, anc_capable: true },
        ModelInfo { id: "donphan_black", name: "CMF Buds", base: ModelBase::B168, anc_capable: true },
        ModelInfo { id: "donphan_white", name: "CMF Buds", base: ModelBase::B168, anc_capable: true },
        ModelInfo { id: "donphan_orange", name: "CMF Buds", base: ModelBase::B168, anc_capable: true },
        ModelInfo { id: "espeon_black", name: "CMF Buds Pro 2", base: ModelBase::B172, anc_capable: true },
        ModelInfo { id: "espeon_white", name: "CMF Buds Pro 2", base: ModelBase::B172, anc_capable: true },
        ModelInfo { id: "espeon_orange", name: "CMF Buds Pro 2", base: ModelBase::B172, anc_capable: true },
        ModelInfo { id: "espeon_blue", name: "CMF Buds Pro 2", base: ModelBase::B172, anc_capable: true },
        ModelInfo { id: "flaaffy_white", name: "Nothing Ear (open)", base: ModelBase::B174, anc_capable: false },
        ModelInfo { id: "feraligatr_black", name: "Nothing Ear (3)", base: ModelBase::B173, anc_capable: true },
        ModelInfo { id: "feraligatr_white", name: "Nothing Ear (3)", base: ModelBase::B173, anc_capable: true },
    ]
}

/// The catalogue of known models.
#[verifier::rlimit(50)]
pub fn model_list() -> (r: Vec<ModelInfo>)
    ensures
        r@ == model_table(),
{
    let mut r: Vec<ModelInfo> = Vec::new();
    r.push(ModelInfo { id: "ear_1_white", name: "Nothing Ear (1)", base: ModelBase::B181, anc_capable: true });
    r.push(ModelInfo { id: "ear_1_black", name: "Nothing Ear (1)", base: ModelBase::B181, anc_capable: true });
    r.push(ModelInfo { id: "ear_stick", name: "Nothing Ear (stick)", base: ModelBase::B157, anc_capable: false });
    r.push(ModelInfo { id: "ear_2_white", name: "Nothing Ear (2)", base: ModelBase::B155, anc_capable: true });
    r.push(ModelInfo { id: "ear_2_black", name: "Nothing Ear (2)", base: ModelBase::B155, anc_capable: true });
    r.push(ModelInfo { id: "corsola_orange", name: "CMF Buds Pro", base: ModelBase::B163, anc_capable: true });
    r.push(ModelInfo { id: "corsola_black", name: "CMF Buds Pro", base: ModelBase::B163, anc_capable: true });
    r.push(ModelInfo { id: "corsola_white", name: "CMF Buds Pro", base: ModelBase::B163, anc_capable: true });
    r.push(ModelInfo { id: "entei_black", name: "Nothing Ear", base: ModelBase::B171, anc_capable: true });
    r.push(ModelInfo { id: "entei_white", name: "Nothing Ear", base: ModelBase::B171, anc_capable: true });
    r.push(ModelInfo { id: "cleffa_black", name: "Nothing Ear (a)", base: ModelBase::B162, anc_capable: true });
    r.push(ModelInfo { id: "cleffa_white", name: "Nothing Ear (a)", base: ModelBase::B162, anc_capable: true });
    r.push(ModelInfo { id: "cleffa_yellow", name: "Nothing Ear (a)", base: ModelBase::B162, anc_capable: true });
    r.push(ModelInfo { id: "crobat_orange", name: "CMF Neckband Pro", base: ModelBase::B164, anc_capable: true });
    r.push(ModelInfo { id: "crobat_white", name: "CMF Neckband Pro", base: ModelBase::B164, anc_capable: true });
    r.push(ModelInfo { id: "crobat_black", name: "CMF Neckband Pro", base: ModelBase::B164, anc_capable: true });
    r.push(ModelInfo { id: "donphan_black", name: "CMF Buds", base: ModelBase::B168, anc_capable: true });
    r.push(ModelInfo { id: "donphan_white", name: "CMF Buds", base: ModelBase::B168, anc_capable: true });
    r.push(ModelInfo { id: "donphan_orange", name: "CMF Buds", base: ModelBase::B168, anc_capable: true });
    r.push(ModelInfo { id: "espeon_black", name: "CMF Buds Pro 2", base: ModelBase::B172, anc_capable: true });
    r.push(ModelInfo { id: "espeon_white", name: "CMF Buds Pro 2", base: ModelBase::B172, anc_capable: true });
    r.push(ModelInfo { id: "espeon_orange", name: "CMF Buds Pro 2", base: ModelBase::B172, anc_capable: true });
    r.push(ModelInfo { id: "espeon_blue", name: "CMF Buds Pro 2", base: ModelBase::B172, anc_capable: true });
    r.push(ModelInfo { id: "flaaffy_white", name: "Nothing Ear (open)", base: ModelBase::B174, anc_capable: false });
    r.push(ModelInfo { id: "feraligatr_black", name: "Nothing Ear (3)", base: ModelBase::B173, anc_capable: true });
    r.push(ModelInfo { id: "feraligatr_white", name: "Nothing Ear (3)", base: ModelBase::B173, anc_capable: true });
    assert(r@ =~= model_table());
    r
}

/// Which model id each SKU stands for. Nothing Ear (3): SKU 21 is confirmed
/// on hardware (serial SH1021...); 22 is the presumed other colorway.
pub open spec fn sku_table() -> Seq<(&'static str, &'static str)> {
    seq![
        ("01", "ear_1_white"),
        ("02", "ear_1_black"),
        ("03", "ear_1_white"),
        ("04", "ear_1_black"),
        ("06", "ear_1_black"),
        ("07", "ear_1_white"),
        ("08", "ear_1_black"),
        ("10", "ear_1_black"),
        ("14", "ear_stick"),
        ("15", "ear_stick"),
        ("16", "ear_stick"),
        ("17", "ear_2_white"),
        ("18", "ear_2_white"),
        ("19", "ear_2_white"),
        ("27", "ear_2_black"),
        ("28", "ear_2_black"),
        ("29", "ear_2_black"),
        ("30", "corsola_black"),
        ("31", "corsola_black"),
        ("32", "corsola_white"),
        ("33", "corsola_white"),
        ("34", "corsola_orange"),
        ("35", "corsola_orange"),
        ("48", "crobat_orange"),
        ("49", "crobat_white"),
        ("50", "crobat_black"),
        ("51", "crobat_black"),
        ("52", "crobat_white"),
        ("53", "crobat_orange"),
        ("54", "donphan_black"),
        ("55", "donphan_black"),
        ("56", "donphan_white"),
        ("57", "donphan_white"),
        ("58", "donphan_orange"),
        ("59", "donphan_orange"),
        ("61", "entei_black"),
        ("62", "entei_white"),
        ("63", "cleffa_black"),
        ("64", "cleffa_white"),
        ("65", "cleffa_yellow"),
        ("66", "cleffa_black"),
        ("67", "cleffa_white"),
        ("68", "cleffa_yellow"),
        ("69", "entei_black"),
        ("70", "entei_white"),
        ("71", "cleffa_black"),
        ("72", "cleffa_white"),
        ("73", "cleffa_yellow"),
        ("74", "entei_black"),
        ("75", "entei_white"),
        ("76", "espeon_black"),
        ("77", "espeon_white"),
        ("78", "espeon_orange"),
        ("79", "espeon_blue"),
        ("80", "espeon_blue"),
        ("81", "espeon_orange"),
        ("82", "espeon_white"),
        ("83", "espeon_black"),
        ("11200005", "flaaffy_white"),
        ("21", "feraligatr_black"),
        ("22", "feraligatr_white"),
    ]
}

#[verifier::rlimit(50)]
fn sku_pairs() -> (r: Vec<(&'static str, &'static str)>)
    ensures
        r@ == sku_table(),
{
    let mut r: Vec<(&'static str, &'static str)> = Vec::new();
    r.push(("01", "ear_1_white"));
    r.push(("02", "ear_1_black"));
    r.push(("03", "ear_1_white"));
    r.push(("04", "ear_1_black"));
    r.push(("06", "ear_1_black"));
    r.push(("07", "ear_1_white"));
    r.push(("08", "ear_1_black"));
    r.push(("10", "ear_1_black"));
    r.push(("14", "ear_stick"));
    r.push(("15", "ear_stick"));
    r.push(("16", "ear_stick"));
    r.push(("17", "ear_2_white"));
    r.push(("18", "ear_2_white"));
    r.push(("19", "ear_2_white"));
    r.push(("27", "ear_2_black"));
    r.push(("28", "ear_2_black"));
    r.push(("29", "ear_2_black"));
    r.push(("30", "corsola_black"));
    r.push(("31", "corsola_black"));
    r.push(("32", "corsola_white"));
    r.push(("33", "corsola_white"));
    r.push(("34", "corsola_orange"));
    r.push(("35", "corsola_orange"));
    r.push(("48", "crobat_orange"));
    r.push(("49", "crobat_white"));
    r.push(("50", "crobat_black"));
    r.push(("51", "crobat_black"));
    r.push(("52", "crobat_white"));
    r.push(("53", "crobat_orange"));
    r.push(("54", "donphan_black"));
    r.push(("55", "donphan_black"));
    r.push(("56", "donphan_white"));
    r.push(("57", "donphan_white"));
    r.push(("58", "donphan_orange"));
    r.push(("59", "donphan_orange"));
    r.push(("61", "entei_black"));
    r.push(("62", "entei_white"));
    r.push(("63", "cleffa_black"));
    r.push(("64", "cleffa_white"));
    r.push(("65", "cleffa_yellow"));
    r.push(("66", "cleffa_black"));
    r.push(("67", "cleffa_white"));
    r.push(("68", "cleffa_yellow"));
    r.push(("69", "entei_black"));
    r.push(("70", "entei_white"));
    r.push(("71", "cleffa_black"));
    r.push(("72", "cleffa_white"));
    r.push(("73", "cleffa_yellow"));
    r.push(("74", "entei_black"));
    r.push(("75", "entei_white"));
    r.push(("76", "espeon_black"));
    r.push(("77", "espeon_white"));
    r.push(("78", "espeon_orange"));
    r.push(("79", "espeon_blue"));
    r.push(("80", "espeon_blue"));
    r.push(("81", "espeon_orange"));
    r.push(("82", "espeon_white"));
    r.push(("83", "espeon_black"));
    r.push(("11200005", "flaaffy_white"));
    r.push(("21", "feraligatr_black"));
    r.push(("22", "feraligatr_white"));
    assert(r@ =~= sku_table());
    r
}

/// The first entry of `table` with the given id.
pub open spec fn find_model(table: Seq<ModelInfo>, id: Seq<char>) -> Option<ModelInfo>
    decreases table.len(),
{
    if table.len() == 0 {
        None
    } else if table[0].id@ == id {
        Some(table[0])
    } else {
        find_model(table.drop_first(), id)
    }
}

/// The model id that `pairs` gives for the first entry with the given SKU.
pub open spec fn find_sku(pairs: Seq<(&'static str, &'static str)>, sku: Seq<char>) -> Option<
    &'static str,
>
    decreases pairs.len(),
{
    if pairs.len() == 0 {
        None
    } else if pairs[0].0@ == sku {
        Some(pairs[0].1)
    } else {
        find_sku(pairs.drop_first(), sku)
    }
}

/// The catalogue entry with the given id.
pub open spec fn model_by_id(id: Seq<char>) -> Option<ModelInfo> {
    find_model(model_table(), id)
}

/// The catalogue entry of the model that the given SKU stands for.
pub open spec fn model_by_sku(sku: Seq<char>) -> Option<ModelInfo> {
    match find_sku(sku_table(), sku) {
        Some(id) => model_by_id(id@),
        None => None,
    }
}

/// Looking up an id gives an entry with exactly that id, and gives one
/// whenever the table holds one.
pub proof fn lemma_find_model_exact(table: Seq<ModelInfo>, id: Seq<char>)
    ensures
        find_model(table, id) matches Some(m) ==> m.id@ == id && table.contains(m),
        find_model(table, id) is None <==> forall|i: int| 0 <= i < table.len() ==> table[i].id@ != id,
    decreases table.len(),
{
    if table.len() > 0 {
        lemma_find_model_exact(table.drop_first(), id);
        if find_model(table, id) is None {
            assert forall|i: int| 0 <= i < table.len() implies table[i].id@ != id by {
                if i > 0 {
                    assert(table[i] == table.drop_first()[i - 1]);
                }
            }
        }
        if let Some(m) = find_model(table.drop_first(), id) {
            if table[0].id@ != id {
                let k = choose|k: int| 0 <= k < table.drop_first().len() && table.drop_first()[k] == m;
                assert(table[k + 1] == m);
            }
        }
    }
}

/// In a table whose ids are all different, each entry is found by its id.
pub proof fn lemma_find_model_entry(table: Seq<ModelInfo>, i: int)
    requires
        0 <= i < table.len(),
        forall|j: int, k: int| 0 <= j < k < table.len() ==> table[j].id@ != table[k].id@,
    ensures
        find_model(table, table[i].id@) == Some(table[i]),
    decreases table.len(),
{
    if i > 0 {
        assert(table.drop_first()[i - 1] == table[i]);
        lemma_find_model_entry(table.drop_first(), i - 1);
    }
}

/// The ids of the catalogue are all different.
pub proof fn lemma_catalogue_ids_distinct()
    ensures
        forall|j: int, k: int|
            0 <= j < k < model_table().len() ==> model_table()[j].id@ != model_table()[k].id@,
{
    reveal_strlit("ear_1_white");
    reveal_strlit("ear_1_black");
    reveal_strlit("ear_stick");
    reveal_strlit("ear_2_white");
    reveal_strlit("ear_2_black");
    reveal_strlit("corsola_orange");
    reveal_strlit("corsola_black");
    reveal_strlit("corsola_white");
    reveal_strlit("entei_black");
    reveal_strlit("entei_white");
    reveal_strlit("cleffa_black");
    reveal_strlit("cleffa_white");
    reveal_strlit("cleffa_yellow");
    reveal_strlit("crobat_orange");
    reveal_strlit("crobat_white");
    reveal_strlit("crobat_black");
    reveal_strlit("donphan_black");
    reveal_strlit("donphan_white");
    reveal_strlit("donphan_orange");
    reveal_strlit("espeon_black");
    reveal_strlit("espeon_white");
    reveal_strlit("espeon_orange");
    reveal_strlit("espeon_blue");
    reveal_strlit("flaaffy_white");
    reveal_strlit("feraligatr_black");
    reveal_strlit("feraligatr_white");
    assert forall|j: int, k: int| 0 <= j < k < model_table().len() implies model_table()[j].id@
        != model_table()[k].id@ by {
        assert("ear_1_white"@[6] != "ear_1_black"@[6]);
        assert("ear_1_white"@[4] != "ear_stick"@[4]);
        assert("ear_1_white"@[4] != "ear_2_white"@[4]);
        assert("ear_1_white"@[4] != "ear_2_black"@[4]);
        assert("ear_1_white"@[0] != "corsola_orange"@[0]);
        assert("ear_1_white"@[0] != "corsola_black"@[0]);
        assert("ear_1_white"@[0] != "corsola_white"@[0]);
        assert("ear_1_white"@[1] != "entei_black"@[1]);
        assert("ear_1_white"@[1] != "entei_white"@[1]);
        assert("ear_1_white"@[0] != "cleffa_black"@[0]);
        assert("ear_1_white"@[0] != "cleffa_white"@[0]);
        assert("ear_1_white"@[0] != "cleffa_yellow"@[0]);
        assert("ear_1_white"@[0] != "crobat_orange"@[0]);
        assert("ear_1_white"@[0] != "crobat_white"@[0]);
        assert("ear_1_white"@[0] != "crobat_black"@[0]);
        assert("ear_1_white"@[0] != "donphan_black"@[0]);
        assert("ear_1_white"@[0] != "donphan_white"@[0]);
        assert("ear_1_white"@[0] != "donphan_orange"@[0]);
        assert("ear_1_white"@[1] != "espeon_black"@[1]);
        assert("ear_1_white"@[1] != "espeon_white"@[1]);
        assert("ear_1_white"@[1] != "espeon_orange"@[1]);
        assert("ear_1_white"@[1] != "espeon_blue"@[1]);
        assert("ear_1_white"@[0] != "flaaffy_white"@[0]);
        assert("ear_1_white"@[0] != "feraligatr_black"@[0]);
        assert("ear_1_white"@[0] != "feraligatr_white"@[0]);
        assert("ear_1_black"@[4] != "ear_stick"@[4]);
        assert("ear_1_black"@[4] != "ear_2_white"@[4]);
        assert("ear_1_black"@[4] != "ear_2_black"@[4]);
        assert("ear_1_black"@[0] != "corsola_orange"@[0]);
        assert("ear_1_black"@[0] != "corsola_black"@[0]);
        assert("ear_1_black"@[0] != "corsola_white"@[0]);
        assert("ear_1_black"@[1] != "entei_black"@[1]);
        assert("ear_1_black"@[1] != "entei_white"@[1]);
        assert("ear_1_black"@[0] != "cleffa_black"@[0]);
        assert("ear_1_black"@[0] != "cleffa_white"@[0]);
        assert("ear_1_black"@[0] != "cleffa_yellow"@[0]);
        assert("ear_1_black"@[0] != "crobat_orange"@[0]);
        assert("ear_1_black"@[0] != "crobat_white"@[0]);
        assert("ear_1_black"@[0] != "crobat_black"@[0]);
        assert("ear_1_black"@[0] != "donphan_black"@[0]);
        assert("ear_1_black"@[0] != "donphan_white"@[0]);
        assert("ear_1_black"@[0] != "donphan_orange"@[0]);
        assert("ear_1_black"@[1] != "espeon_black"@[1]);
        assert("ear_1_black"@[1] != "espeon_white"@[1]);
        assert("ear_1_black"@[1] != "espeon_orange"@[1]);
        assert("ear_1_black"@[1] != "espeon_blue"@[1]);
        assert("ear_1_black"@[0] != "flaaffy_white"@[0]);
        assert("ear_1_black"@[0] != "feraligatr_black"@[0]);
        assert("ear_1_black"@[0] != "feraligatr_white"@[0]);
        assert("ear_stick"@[4] != "ear_2_white"@[4]);
        assert("ear_stick"@[4] != "ear_2_black"@[4]);
        assert("ear_stick"@[0] != "corsola_orange"@[0]);
        assert("ear_stick"@[0] != "corsola_black"@[0]);
        assert("ear_stick"@[0] != "corsola_white"@[0]);
        assert("ear_stick"@[1] != "entei_black"@[1]);
        assert("ear_stick"@[1] != "entei_white"@[1]);
        assert("ear_stick"@[0] != "cleffa_black"@[0]);
        assert("ear_stick"@[0] != "cleffa_white"@[0]);
        assert("ear_stick"@[0] != "cleffa_yellow"@[0]);
        assert("ear_stick"@[0] != "crobat_orange"@[0]);
        assert("ear_stick"@[0] != "crobat_white"@[0]);
        assert("ear_stick"@[0] != "crobat_black"@[0]);
        assert("ear_stick"@[0] != "donphan_black"@[0]);
        assert("ear_stick"@[0] != "donphan_white"@[0]);
        assert("ear_stick"@[0] != "donphan_orange"@[0]);
        assert("ear_stick"@[1] != "espeon_black"@[1]);
        assert("ear_stick"@[1] != "espeon_white"@[1]);
        assert("ear_stick"@[1] != "espeon_orange"@[1]);
        assert("ear_stick"@[1] != "espeon_blue"@[1]);
        assert("ear_stick"@[0] != "flaaffy_white"@[0]);
        assert("ear_stick"@[0] != "feraligatr_black"@[0]);
        assert("ear_stick"@[0] != "feraligatr_white"@[0]);
        assert("ear_2_white"@[6] != "ear_2_black"@[6]);
        assert("ear_2_white"@[0] != "corsola_orange"@[0]);
        assert("ear_2_white"@[0] != "corsola_black"@[0]);
        assert("ear_2_white"@[0] != "corsola_white"@[0]);
        assert("ear_2_white"@[1] != "entei_black"@[1]);
        assert("ear_2_white"@[1] != "entei_white"@[1]);
        assert("ear_2_white"@[0] != "cleffa_black"@[0]);
        assert("ear_2_white"@[0] != "cleffa_white"@[0]);
        assert("ear_2_white"@[0] != "cleffa_yellow"@[0]);
        assert("ear_2_white"@[0] != "crobat_orange"@[0]);
        assert("ear_2_white"@[0] != "crobat_white"@[0]);
        assert("ear_2_white"@[0] != "crobat_black"@[0]);
        assert("ear_2_white"@[0] != "donphan_black"@[0]);
        assert("ear_2_white"@[0] != "donphan_white"@[0]);
        assert("ear_2_white"@[0] != "donphan_orange"@[0]);
        assert("ear_2_white"@[1] != "espeon_black"@[1]);
        assert("ear_2_white"@[1] != "espeon_white"@[1]);
        assert("ear_2_white"@[1] != "espeon_orange"@[1]);
        assert("ear_2_white"@[1] != "espeon_blue"@[1]);
        assert("ear_2_white"@[0] != "flaaffy_white"@[0]);
        assert("ear_2_white"@[0] != "feraligatr_black"@[0]);
        assert("ear_2_white"@[0] != "feraligatr_white"@[0]);
        assert("ear_2_black"@[0] != "corsola_orange"@[0]);
        assert("ear_2_black"@[0] != "corsola_black"@[0]);
        assert("ear_2_black"@[0] != "corsola_white"@[0]);
        assert("ear_2_black"@[1] != "entei_black"@[1]);
        assert("ear_2_black"@[1] != "entei_white"@[1]);
        assert("ear_2_black"@[0] != "cleffa_black"@[0]);
        assert("ear_2_black"@[0] != "cleffa_white"@[0]);
        assert("ear_2_black"@[0] != "cleffa_yellow"@[0]);
        assert("ear_2_black"@[0] != "crobat_orange"@[0]);
        assert("ear_2_black"@[0] != "crobat_white"@[0]);
        assert("ear_2_black"@[0] != "crobat_black"@[0]);
        assert("ear_2_black"@[0] != "donphan_black"@[0]);
        assert("ear_2_black"@[0] != "donphan_white"@[0]);
        assert("ear_2_black"@[0] != "donphan_orange"@[0]);
        assert("ear_2_black"@[1] != "espeon_black"@[1]);
        assert("ear_2_black"@[1] != "espeon_white"@[1]);
        assert("ear_2_black"@[1] != "espeon_orange"@[1]);
        assert("ear_2_black"@[1] != "espeon_blue"@[1]);
        assert("ear_2_black"@[0] != "flaaffy_white"@[0]);
        assert("ear_2_black"@[0] != "feraligatr_black"@[0]);
        assert("ear_2_black"@[0] != "feraligatr_white"@[0]);
        assert("corsola_orange"@[8] != "corsola_black"@[8]);
        assert("corsola_orange"@[8] != "corsola_white"@[8]);
        assert("corsola_orange"@[0] != "entei_black"@[0]);
        assert("corsola_orange"@[0] != "entei_white"@[0]);
        assert("corsola_orange"@[1] != "cleffa_black"@[1]);
        assert("corsola_orange"@[1] != "cleffa_white"@[1]);
        assert("corsola_orange"@[1] != "cleffa_yellow"@[1]);
        assert("corsola_orange"@[1] != "crobat_orange"@[1]);
        assert("corsola_orange"@[1] != "crobat_white"@[1]);
        assert("corsola_orange"@[1] != "crobat_black"@[1]);
        assert("corsola_orange"@[0] != "donphan_black"@[0]);
        assert("corsola_orange"@[0] != "donphan_white"@[0]);
        assert("corsola_orange"@[0] != "donphan_orange"@[0]);
        assert("corsola_orange"@[0] != "espeon_black"@[0]);
        assert("corsola_orange"@[0] != "espeon_white"@[0]);
        assert("corsola_orange"@[0] != "espeon_orange"@[0]);
        assert("corsola_orange"@[0] != "espeon_blue"@[0]);
        assert("corsola_orange"@[0] != "flaaffy_white"@[0]);
        assert("corsola_orange"@[0] != "feraligatr_black"@[0]);
        assert("corsola_orange"@[0] != "feraligatr_white"@[0]);
        assert("corsola_black"@[8] != "corsola_white"@[8]);
        assert("corsola_black"@[0] != "entei_black"@[0]);
        assert("corsola_black"@[0] != "entei_white"@[0]);
        assert("corsola_black"@[1] != "cleffa_black"@[1]);
        assert("corsola_black"@[1] != "cleffa_white"@[1]);
        assert("corsola_black"@[1] != "cleffa_yellow"@[1]);
        assert("corsola_black"@[1] != "crobat_orange"@[1]);
        assert("corsola_black"@[1] != "crobat_white"@[1]);
        assert("corsola_black"@[1] != "crobat_black"@[1]);
        assert("corsola_black"@[0] != "donphan_black"@[0]);
        assert("corsola_black"@[0] != "donphan_white"@[0]);
        assert("corsola_black"@[0] != "donphan_orange"@[0]);
        assert("corsola_black"@[0] != "espeon_black"@[0]);
        assert("corsola_black"@[0] != "espeon_white"@[0]);
        assert("corsola_black"@[0] != "espeon_orange"@[0]);
        assert("corsola_black"@[0] != "espeon_blue"@[0]);
        assert("corsola_black"@[0] != "flaaffy_white"@[0]);
        assert("corsola_black"@[0] != "feraligatr_black"@[0]);
        assert("corsola_black"@[0] != "feraligatr_white"@[0]);
        assert("corsola_white"@[0] != "entei_black"@[0]);
        assert("corsola_white"@[0] != "entei_white"@[0]);
        assert("corsola_white"@[1] != "cleffa_black"@[1]);
        assert("corsola_white"@[1] != "cleffa_white"@[1]);
        assert("corsola_white"@[1] != "cleffa_yellow"@[1]);
        assert("corsola_white"@[1] != "crobat_orange"@[1]);
        assert("corsola_white"@[1] != "crobat_white"@[1]);
        assert("corsola_white"@[1] != "crobat_black"@[1]);
        assert("corsola_white"@[0] != "donphan_black"@[0]);
        assert("corsola_white"@[0] != "donphan_white"@[0]);
        assert("corsola_white"@[0] != "donphan_orange"@[0]);
        assert("corsola_white"@[0] != "espeon_black"@[0]);
        assert("corsola_white"@[0] != "espeon_white"@[0]);
        assert("corsola_white"@[0] != "espeon_orange"@[0]);
        assert("corsola_white"@[0] != "espeon_blue"@[0]);
        assert("corsola_white"@[0] != "flaaffy_white"@[0]);
        assert("corsola_white"@[0] != "feraligatr_black"@[0]);
        assert("corsola_white"@[0] != "feraligatr_white"@[0]);
        assert("entei_black"@[6] != "entei_white"@[6]);
        assert("entei_black"@[0] != "cleffa_black"@[0]);
        assert("entei_black"@[0] != "cleffa_white"@[0]);
        assert("entei_black"@[0] != "cleffa_yellow"@[0]);
        assert("entei_black"@[0] != "crobat_orange"@[0]);
        assert("entei_black"@[0] != "crobat_white"@[0]);
        assert("entei_black"@[0] != "crobat_black"@[0]);
        assert("entei_black"@[0] != "donphan_black"@[0]);
        assert("entei_black"@[0] != "donphan_white"@[0]);
        assert("entei_black"@[0] != "donphan_orange"@[0]);
        assert("entei_black"@[1] != "espeon_black"@[1]);
        assert("entei_black"@[1] != "espeon_white"@[1]);
        assert("entei_black"@[1] != "espeon_orange"@[1]);
        assert("entei_black"@[1] != "espeon_blue"@[1]);
        assert("entei_black"@[0] != "flaaffy_white"@[0]);
        assert("entei_black"@[0] != "feraligatr_black"@[0]);
        assert("entei_black"@[0] != "feraligatr_white"@[0]);
        assert("entei_white"@[0] != "cleffa_black"@[0]);
        assert("entei_white"@[0] != "cleffa_white"@[0]);
        assert("entei_white"@[0] != "cleffa_yellow"@[0]);
        assert("entei_white"@[0] != "crobat_orange"@[0]);
        assert("entei_white"@[0] != "crobat_white"@[0]);
        assert("entei_white"@[0] != "crobat_black"@[0]);
        assert("entei_white"@[0] != "donphan_black"@[0]);
        assert("entei_white"@[0] != "donphan_white"@[0]);
        assert("entei_white"@[0] != "donphan_orange"@[0]);
        assert("entei_white"@[1] != "espeon_black"@[1]);
        assert("entei_white"@[1] != "espeon_white"@[1]);
        assert("entei_white"@[1] != "espeon_orange"@[1]);
        assert("entei_white"@[1] != "espeon_blue"@[1]);
        assert("entei_white"@[0] != "flaaffy_white"@[0]);
        assert("entei_white"@[0] != "feraligatr_black"@[0]);
        assert("entei_white"@[0] != "feraligatr_white"@[0]);
        assert("cleffa_black"@[7] != "cleffa_white"@[7]);
        assert("cleffa_black"@[7] != "cleffa_yellow"@[7]);
        assert("cleffa_black"@[1] != "crobat_orange"@[1]);
        assert("cleffa_black"@[1] != "crobat_white"@[1]);
        assert("cleffa_black"@[1] != "crobat_black"@[1]);
        assert("cleffa_black"@[0] != "donphan_black"@[0]);
        assert("cleffa_black"@[0] != "donphan_white"@[0]);
        assert("cleffa_black"@[0] != "donphan_orange"@[0]);
        assert("cleffa_black"@[0] != "espeon_black"@[0]);
        assert("cleffa_black"@[0] != "espeon_white"@[0]);
        assert("cleffa_black"@[0] != "espeon_orange"@[0]);
        assert("cleffa_black"@[0] != "espeon_blue"@[0]);
        assert("cleffa_black"@[0] != "flaaffy_white"@[0]);
        assert("cleffa_black"@[0] != "feraligatr_black"@[0]);
        assert("cleffa_black"@[0] != "feraligatr_white"@[0]);
        assert("cleffa_white"@[7] != "cleffa_yellow"@[7]);
        assert("cleffa_white"@[1] != "crobat_orange"@[1]);
        assert("cleffa_white"@[1] != "crobat_white"@[1]);
        assert("cleffa_white"@[1] != "crobat_black"@[1]);
        assert("cleffa_white"@[0] != "donphan_black"@[0]);
        assert("cleffa_white"@[0] != "donphan_white"@[0]);
        assert("cleffa_white"@[0] != "donphan_orange"@[0]);
        assert("cleffa_white"@[0] != "espeon_black"@[0]);
        assert("cleffa_white"@[0] != "espeon_white"@[0]);
        assert("cleffa_white"@[0] != "espeon_orange"@[0]);
        assert("cleffa_white"@[0] != "espeon_blue"@[0]);
        assert("cleffa_white"@[0] != "flaaffy_white"@[0]);
        assert("cleffa_white"@[0] != "feraligatr_black"@[0]);
        assert("cleffa_white"@[0] != "feraligatr_white"@[0]);
        assert("cleffa_yellow"@[1] != "crobat_orange"@[1]);
        assert("cleffa_yellow"@[1] != "crobat_white"@[1]);
        assert("cleffa_yellow"@[1] != "crobat_black"@[1]);
        assert("cleffa_yellow"@[0] != "donphan_black"@[0]);
        assert("cleffa_yellow"@[0] != "donphan_white"@[0]);
        assert("cleffa_yellow"@[0] != "donphan_orange"@[0]);
        assert("cleffa_yellow"@[0] != "espeon_black"@[0]);
        assert("cleffa_yellow"@[0] != "espeon_white"@[0]);
        assert("cleffa_yellow"@[0] != "espeon_orange"@[0]);
        assert("cleffa_yellow"@[0] != "espeon_blue"@[0]);
        assert("cleffa_yellow"@[0] != "flaaffy_white"@[0]);
        assert("cleffa_yellow"@[0] != "feraligatr_black"@[0]);
        assert("cleffa_yellow"@[0] != "feraligatr_white"@[0]);
        assert("crobat_orange"@[7] != "crobat_white"@[7]);
        assert("crobat_orange"@[7] != "crobat_black"@[7]);
        assert("crobat_orange"@[0] != "donphan_black"@[0]);
        assert("crobat_orange"@[0] != "donphan_white"@[0]);
        assert("crobat_orange"@[0] != "donphan_orange"@[0]);
        assert("crobat_orange"@[0] != "espeon_black"@[0]);
        assert("crobat_orange"@[0] != "espeon_white"@[0]);
        assert("crobat_orange"@[0] != "espeon_orange"@[0]);
        assert("crobat_orange"@[0] != "espeon_blue"@[0]);
        assert("crobat_orange"@[0] != "flaaffy_white"@[0]);
        assert("crobat_orange"@[0] != "feraligatr_black"@[0]);
        assert("crobat_orange"@[0] != "feraligatr_white"@[0]);
        assert("crobat_white"@[7] != "crobat_black"@[7]);
        assert("crobat_white"@[0] != "donphan_black"@[0]);
        assert("crobat_white"@[0] != "donphan_white"@[0]);
        assert("crobat_white"@[0] != "donphan_orange"@[0]);
        assert("crobat_white"@[0] != "espeon_black"@[0]);
        assert("crobat_white"@[0] != "espeon_white"@[0]);
        assert("crobat_white"@[0] != "espeon_orange"@[0]);
        assert("crobat_white"@[0] != "espeon_blue"@[0]);
        assert("crobat_white"@[0] != "flaaffy_white"@[0]);
        assert("crobat_white"@[0] != "feraligatr_black"@[0]);
        assert("crobat_white"@[0] != "feraligatr_white"@[0]);
        assert("crobat_black"@[0] != "donphan_black"@[0]);
        assert("crobat_black"@[0] != "donphan_white"@[0]);
        assert("crobat_black"@[0] != "donphan_orange"@[0]);
        assert("crobat_black"@[0] != "espeon_black"@[0]);
        assert("crobat_black"@[0] != "espeon_white"@[0]);
        assert("crobat_black"@[0] != "espeon_orange"@[0]);
        assert("crobat_black"@[0] != "espeon_blue"@[0]);
        assert("crobat_black"@[0] != "flaaffy_white"@[0]);
        assert("crobat_black"@[0] != "feraligatr_black"@[0]);
        assert("crobat_black"@[0] != "feraligatr_white"@[0]);
        assert("donphan_black"@[8] != "donphan_white"@[8]);
        assert("donphan_black"@[8] != "donphan_orange"@[8]);
        assert("donphan_black"@[0] != "espeon_black"@[0]);
        assert("donphan_black"@[0] != "espeon_white"@[0]);
        assert("donphan_black"@[0] != "espeon_orange"@[0]);
        assert("donphan_black"@[0] != "espeon_blue"@[0]);
        assert("donphan_black"@[0] != "flaaffy_white"@[0]);
        assert("donphan_black"@[0] != "feraligatr_black"@[0]);
        assert("donphan_black"@[0] != "feraligatr_white"@[0]);
        assert("donphan_white"@[8] != "donphan_orange"@[8]);
        assert("donphan_white"@[0] != "espeon_black"@[0]);
        assert("donphan_white"@[0] != "espeon_white"@[0]);
        assert("donphan_white"@[0] != "espeon_orange"@[0]);
        assert("donphan_white"@[0] != "espeon_blue"@[0]);
        assert("donphan_white"@[0] != "flaaffy_white"@[0]);
        assert("donphan_white"@[0] != "feraligatr_black"@[0]);
        assert("donphan_white"@[0] != "feraligatr_white"@[0]);
        assert("donphan_orange"@[0] != "espeon_black"@[0]);
        assert("donphan_orange"@[0] != "espeon_white"@[0]);
        assert("donphan_orange"@[0] != "espeon_orange"@[0]);
        assert("donphan_orange"@[0] != "espeon_blue"@[0]);
        assert("donphan_orange"@[0] != "flaaffy_white"@[0]);
        assert("donphan_orange"@[0] != "feraligatr_black"@[0]);
        assert("donphan_orange"@[0] != "feraligatr_white"@[0]);
        assert("espeon_black"@[7] != "espeon_white"@[7]);
        assert("espeon_black"@[7] != "espeon_orange"@[7]);
        assert("espeon_black"@[9] != "espeon_blue"@[9]);
        assert("espeon_black"@[0] != "flaaffy_white"@[0]);
        assert("espeon_black"@[0] != "feraligatr_black"@[0]);
        assert("espeon_black"@[0] != "feraligatr_white"@[0]);
        assert("espeon_white"@[7] != "espeon_orange"@[7]);
        assert("espeon_white"@[7] != "espeon_blue"@[7]);
        assert("espeon_white"@[0] != "flaaffy_white"@[0]);
        assert("espeon_white"@[0] != "feraligatr_black"@[0]);
        assert("espeon_white"@[0] != "feraligatr_white"@[0]);
        assert("espeon_orange"@[7] != "espeon_blue"@[7]);
        assert("espeon_orange"@[0] != "flaaffy_white"@[0]);
        assert("espeon_orange"@[0] != "feraligatr_black"@[0]);
        assert("espeon_orange"@[0] != "feraligatr_white"@[0]);
        assert("espeon_blue"@[0] != "flaaffy_white"@[0]);
        assert("espeon_blue"@[0] != "feraligatr_black"@[0]);
        assert("espeon_blue"@[0] != "feraligatr_white"@[0]);
        assert("flaaffy_white"@[1] != "feraligatr_black"@[1]);
        assert("flaaffy_white"@[1] != "feraligatr_white"@[1]);
        assert("feraligatr_black"@[11] != "feraligatr_white"@[11]);
    }
}

/// Every catalogue model is found by its id.
pub proof fn lemma_catalogue_lookup(i: int)
    requires
        0 <= i < model_table().len(),
    ensures
        model_by_id(model_table()[i].id@) == Some(model_table()[i]),
{
    lemma_catalogue_ids_distinct();
    lemma_find_model_entry(model_table(), i);
}

fn find_model_in(table: &Vec<ModelInfo>, id: &str) -> (r: Option<ModelInfo>)
    ensures
        r == find_model(table@, id@),
{
    let mut i: usize = 0;
    assert(table@.skip(0) =~= table@);
    while i < table.len()
        invariant
            0 <= i <= table@.len(),
            find_model(table@, id@) == find_model(table@.skip(i as int), id@),
        decreases table@.len() - i,
    {
        assert(table@.skip(i as int).drop_first() =~= table@.skip(i + 1));
        if str_eq(table[i].id, id) {
            return Some(table[i]);
        }
        i = i + 1;
    }
    None
}

fn find_sku_in(pairs: &Vec<(&'static str, &'static str)>, sku: &str) -> (r: Option<&'static str>)
    ensures
        r == find_sku(pairs@, sku@),
{
    let mut i: usize = 0;
    assert(pairs@.skip(0) =~= pairs@);
    while i < pairs.len()
        invariant
            0 <= i <= pairs@.len(),
            find_sku(pairs@, sku@) == find_sku(pairs@.skip(i as int), sku@),
        decreases pairs@.len() - i,
    {
        assert(pairs@.skip(i as int).drop_first() =~= pairs@.skip(i + 1));
        if str_eq(pairs[i].0, sku) {
            return Some(pairs[i].1);
        }
        i = i + 1;
    }
    None
}

/// The catalogue entry with the given id.
pub fn model_from_id(id: &str) -> (r: Option<ModelInfo>)
    ensures
        r == model_by_id(id@),
{
    let table = model_list();
    find_model_in(&table, id)
}

/// The catalogue entry of the model that the given SKU stands for.
pub fn model_from_sku(sku: &str) -> (r: Option<ModelInfo>)
    ensures
        r == model_by_sku(sku@),
{
    let pairs = sku_pairs();
    match find_sku_in(&pairs, sku) {
        Some(id) => model_from_id(id),
        None => None,
    }
}

} // verus!
