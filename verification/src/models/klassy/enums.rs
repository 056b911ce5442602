//! The enumerated values of Klassy window decoration settings, each with
//! the exact text used in Klassy INI files.

use vstd::prelude::*;
use crate::text::str_eq;

verus! {

broadcast use vstd::string::group_string_axioms;

/// Shape of window decoration buttons.
#[derive(Clone, Copy, Debug, PartialEq, Eq, Hash, Structural)]
pub enum ButtonShape {
    SmallCircle,
    FullHeightRectangle,
    IntegratedRoundedRectangle,
    SmallSquare,
    FullHeightRoundedRectangle,
}

impl ButtonShape {
    /// The name of a value (the variant's own name; a `None` value of Klassy's is named `None`).
    pub open spec fn name(self) -> Seq<char> {
        match self {
            ButtonShape::SmallCircle => "SmallCircle"@,
            ButtonShape::FullHeightRectangle => "FullHeightRectangle"@,
            ButtonShape::IntegratedRoundedRectangle => "IntegratedRoundedRectangle"@,
            ButtonShape::SmallSquare => "SmallSquare"@,
            ButtonShape::FullHeightRoundedRectangle => "FullHeightRoundedRectangle"@,
        }
    }

    /// Each value's INI text is `Shape` followed by the value's name.
    pub proof fn lemma_text_is_named(self)
        ensures
            self.text() == "Shape"@ + self.name(),
    {
        match self {
            ButtonShape::SmallCircle => { reveal_strlit("Shape"); reveal_strlit("SmallCircle"); reveal_strlit("ShapeSmallCircle"); assert("ShapeSmallCircle"@ =~= "Shape"@ + "SmallCircle"@); },
            ButtonShape::FullHeightRectangle => { reveal_strlit("Shape"); reveal_strlit("FullHeightRectangle"); reveal_strlit("ShapeFullHeightRectangle"); assert("ShapeFullHeightRectangle"@ =~= "Shape"@ + "FullHeightRectangle"@); },
            ButtonShape::IntegratedRoundedRectangle => { reveal_strlit("Shape"); reveal_strlit("IntegratedRoundedRectangle"); reveal_strlit("ShapeIntegratedRoundedRectangle"); assert("ShapeIntegratedRoundedRectangle"@ =~= "Shape"@ + "IntegratedRoundedRectangle"@); },
            ButtonShape::SmallSquare => { reveal_strlit("Shape"); reveal_strlit("SmallSquare"); reveal_strlit("ShapeSmallSquare"); assert("ShapeSmallSquare"@ =~= "Shape"@ + "SmallSquare"@); },
            ButtonShape::FullHeightRoundedRectangle => { reveal_strlit("Shape"); reveal_strlit("FullHeightRoundedRectangle"); reveal_strlit("ShapeFullHeightRoundedRectangle"); assert("ShapeFullHeightRoundedRectangle"@ =~= "Shape"@ + "FullHeightRoundedRectangle"@); },
        }
    }

    /// The INI text of a value.
    pub open spec fn text(self) -> Seq<char> {
        match self {
            ButtonShape::SmallCircle => "ShapeSmallCircle"@,
            ButtonShape::FullHeightRectangle => "ShapeFullHeightRectangle"@,
            ButtonShape::IntegratedRoundedRectangle => "ShapeIntegratedRoundedRectangle"@,
            ButtonShape::SmallSquare => "ShapeSmallSquare"@,
            ButtonShape::FullHeightRoundedRectangle => "ShapeFullHeightRoundedRectangle"@,
        }
    }

    /// The value whose INI text is `s`, if any.
    pub open spec fn parse(s: Seq<char>) -> Option<Self> {
        if s == "ShapeSmallCircle"@ {
            Some(ButtonShape::SmallCircle)
        } else if s == "ShapeFullHeightRectangle"@ {
            Some(ButtonShape::FullHeightRectangle)
        } else if s == "ShapeIntegratedRoundedRectangle"@ {
            Some(ButtonShape::IntegratedRoundedRectangle)
        } else if s == "ShapeSmallSquare"@ {
            Some(ButtonShape::SmallSquare)
        } else if s == "ShapeFullHeightRoundedRectangle"@ {
            Some(ButtonShape::FullHeightRoundedRectangle)
        } else {
            None
        }
    }

    /// The values in declaration order.
    pub open spec fn variants() -> Seq<Self> {
        seq![
            ButtonShape::SmallCircle,
            ButtonShape::FullHeightRectangle,
            ButtonShape::IntegratedRoundedRectangle,
            ButtonShape::SmallSquare,
            ButtonShape::FullHeightRoundedRectangle,
        ]
    }

    /// Parse from the INI string value.
    pub fn from_value(s: &str) -> (r: Option<Self>)
        ensures
            r == Self::parse(s@),
    {
        if str_eq(s, "ShapeSmallCircle") {
            Some(ButtonShape::SmallCircle)
        } else if str_eq(s, "ShapeFullHeightRectangle") {
            Some(ButtonShape::FullHeightRectangle)
        } else if str_eq(s, "ShapeIntegratedRoundedRectangle") {
            Some(ButtonShape::IntegratedRoundedRectangle)
        } else if str_eq(s, "ShapeSmallSquare") {
            Some(ButtonShape::SmallSquare)
        } else if str_eq(s, "ShapeFullHeightRoundedRectangle") {
            Some(ButtonShape::FullHeightRoundedRectangle)
        } else {
            None
        }
    }

    /// Return the INI string value.
    pub fn value(&self) -> (r: &'static str)
        ensures
            r@ == self.text(),
    {
        match self {
            ButtonShape::SmallCircle => "ShapeSmallCircle",
            ButtonShape::FullHeightRectangle => "ShapeFullHeightRectangle",
            ButtonShape::IntegratedRoundedRectangle => "ShapeIntegratedRoundedRectangle",
            ButtonShape::SmallSquare => "ShapeSmallSquare",
            ButtonShape::FullHeightRoundedRectangle => "ShapeFullHeightRoundedRectangle",
        }
    }

    /// Return all variants.
    pub fn all() -> (r: Vec<Self>)
        ensures
            r@ == Self::variants(),
    {
        let mut r: Vec<Self> = Vec::new();
        r.push(ButtonShape::SmallCircle);
        r.push(ButtonShape::FullHeightRectangle);
        r.push(ButtonShape::IntegratedRoundedRectangle);
        r.push(ButtonShape::SmallSquare);
        r.push(ButtonShape::FullHeightRoundedRectangle);
        assert(r@ =~= Self::variants());
        r
    }

    /// Every value reads back from its INI text.
    pub proof fn lemma_text_round_trip(v: Self)
        ensures
            Self::parse(v.text()) == Some(v),
    {
        reveal_strlit("ShapeSmallCircle");
        reveal_strlit("ShapeFullHeightRectangle");
        reveal_strlit("ShapeIntegratedRoundedRectangle");
        reveal_strlit("ShapeSmallSquare");
        reveal_strlit("ShapeFullHeightRoundedRectangle");
        assert("ShapeSmallCircle"@.len() != "ShapeFullHeightRectangle"@.len());
        assert("ShapeSmallCircle"@.len() != "ShapeIntegratedRoundedRectangle"@.len());
        assert("ShapeSmallCircle"@[10] != "ShapeSmallSquare"@[10]);
        assert("ShapeSmallCircle"@.len() != "ShapeFullHeightRoundedRectangle"@.len());
        assert("ShapeFullHeightRectangle"@.len() != "ShapeIntegratedRoundedRectangle"@.len());
        assert("ShapeFullHeightRectangle"@.len() != "ShapeSmallSquare"@.len());
        assert("ShapeFullHeightRectangle"@.len() != "ShapeFullHeightRoundedRectangle"@.len());
        assert("ShapeIntegratedRoundedRectangle"@.len() != "ShapeSmallSquare"@.len());
        assert("ShapeIntegratedRoundedRectangle"@[5] != "ShapeFullHeightRoundedRectangle"@[5]);
        assert("ShapeSmallSquare"@.len() != "ShapeFullHeightRoundedRectangle"@.len());
    }

    /// A text that parses is the text of the value it parses to.
    pub proof fn lemma_parse_inverse(s: Seq<char>)
        ensures
            Self::parse(s) matches Some(v) ==> v.text() == s,
    {
    }
}

/// Icon style for window decoration buttons.
#[derive(Clone, Copy, Debug, PartialEq, Eq, Hash, Structural)]
pub enum ButtonIconStyle {
    Oxygen,
    Klasse,
    SuessigKite,
    Redmond,
    SystemIconTheme,
    KlassyKite,
}

impl ButtonIconStyle {
    /// The name of a value (the variant's own name; a `None` value of Klassy's is named `None`).
    pub open spec fn name(self) -> Seq<char> {
        match self {
            ButtonIconStyle::Oxygen => "Oxygen"@,
            ButtonIconStyle::Klasse => "Klasse"@,
            ButtonIconStyle::SuessigKite => "SuessigKite"@,
            ButtonIconStyle::Redmond => "Redmond"@,
            ButtonIconStyle::SystemIconTheme => "SystemIconTheme"@,
            ButtonIconStyle::KlassyKite => "KlassyKite"@,
        }
    }

    /// Each value's INI text is `Style` followed by the value's name.
    pub proof fn lemma_text_is_named(self)
        ensures
            self.text() == "Style"@ + self.name(),
    {
        match self {
            ButtonIconStyle::Oxygen => { reveal_strlit("Style"); reveal_strlit("Oxygen"); reveal_strlit("StyleOxygen"); assert("StyleOxygen"@ =~= "Style"@ + "Oxygen"@); },
            ButtonIconStyle::Klasse => { reveal_strlit("Style"); reveal_strlit("Klasse"); reveal_strlit("StyleKlasse"); assert("StyleKlasse"@ =~= "Style"@ + "Klasse"@); },
            ButtonIconStyle::SuessigKite => { reveal_strlit("Style"); reveal_strlit("SuessigKite"); reveal_strlit("StyleSuessigKite"); assert("StyleSuessigKite"@ =~= "Style"@ + "SuessigKite"@); },
            ButtonIconStyle::Redmond => { reveal_strlit("Style"); reveal_strlit("Redmond"); reveal_strlit("StyleRedmond"); assert("StyleRedmond"@ =~= "Style"@ + "Redmond"@); },
            ButtonIconStyle::SystemIconTheme => { reveal_strlit("Style"); reveal_strlit("SystemIconTheme"); reveal_strlit("StyleSystemIconTheme"); assert("StyleSystemIconTheme"@ =~= "Style"@ + "SystemIconTheme"@); },
            ButtonIconStyle::KlassyKite => { reveal_strlit("Style"); reveal_strlit("KlassyKite"); reveal_strlit("StyleKlassyKite"); assert("StyleKlassyKite"@ =~= "Style"@ + "KlassyKite"@); },
        }
    }

    /// The INI text of a value.
    pub open spec fn text(self) -> Seq<char> {
        match self {
            ButtonIconStyle::Oxygen => "StyleOxygen"@,
            ButtonIconStyle::Klasse => "StyleKlasse"@,
            ButtonIconStyle::SuessigKite => "StyleSuessigKite"@,
            ButtonIconStyle::Redmond => "StyleRedmond"@,
            ButtonIconStyle::SystemIconTheme => "StyleSystemIconTheme"@,
            ButtonIconStyle::KlassyKite => "StyleKlassyKite"@,
        }
    }

    /// The value whose INI text is `s`, if any.
    pub open spec fn parse(s: Seq<char>) -> Option<Self> {
        if s == "StyleOxygen"@ {
            Some(ButtonIconStyle::Oxygen)
        } else if s == "StyleKlasse"@ {
            Some(ButtonIconStyle::Klasse)
        } else if s == "StyleSuessigKite"@ {
            Some(ButtonIconStyle::SuessigKite)
        } else if s == "StyleRedmond"@ {
            Some(ButtonIconStyle::Redmond)
        } else if s == "StyleSystemIconTheme"@ {
            Some(ButtonIconStyle::SystemIconTheme)
        } else if s == "StyleKlassyKite"@ {
            Some(ButtonIconStyle::KlassyKite)
        } else {
            None
        }
    }

    /// The values in declaration order.
    pub open spec fn variants() -> Seq<Self> {
        seq![
            ButtonIconStyle::Oxygen,
            ButtonIconStyle::Klasse,
            ButtonIconStyle::SuessigKite,
            ButtonIconStyle::Redmond,
            ButtonIconStyle::SystemIconTheme,
            ButtonIconStyle::KlassyKite,
        ]
    }

    /// Parse from the INI string value.
    pub fn from_value(s: &str) -> (r: Option<Self>)
        ensures
            r == Self::parse(s@),
    {
        if str_eq(s, "StyleOxygen") {
            Some(ButtonIconStyle::Oxygen)
        } else if str_eq(s, "StyleKlasse") {
            Some(ButtonIconStyle::Klasse)
        } else if str_eq(s, "StyleSuessigKite") {
            Some(ButtonIconStyle::SuessigKite)
        } else if str_eq(s, "StyleRedmond") {
            Some(ButtonIconStyle::Redmond)
        } else if str_eq(s, "StyleSystemIconTheme") {
            Some(ButtonIconStyle::SystemIconTheme)
        } else if str_eq(s, "StyleKlassyKite") {
            Some(ButtonIconStyle::KlassyKite)
        } else {
            None
        }
    }

    /// Return the INI string value.
    pub fn value(&self) -> (r: &'static str)
        ensures
            r@ == self.text(),
    {
        match self {
            ButtonIconStyle::Oxygen => "StyleOxygen",
            ButtonIconStyle::Klasse => "StyleKlasse",
            ButtonIconStyle::SuessigKite => "StyleSuessigKite",
            ButtonIconStyle::Redmond => "StyleRedmond",
            ButtonIconStyle::SystemIconTheme => "StyleSystemIconTheme",
            ButtonIconStyle::KlassyKite => "StyleKlassyKite",
        }
    }

    /// Return all variants.
    pub fn all() -> (r: Vec<Self>)
        ensures
            r@ == Self::variants(),
    {
        let mut r: Vec<Self> = Vec::new();
        r.push(ButtonIconStyle::Oxygen);
        r.push(ButtonIconStyle::Klasse);
        r.push(ButtonIconStyle::SuessigKite);
        r.push(ButtonIconStyle::Redmond);
        r.push(ButtonIconStyle::SystemIconTheme);
        r.push(ButtonIconStyle::KlassyKite);
        assert(r@ =~= Self::variants());
        r
    }

    /// Every value reads back from its INI text.
    pub proof fn lemma_text_round_trip(v: Self)
        ensures
            Self::parse(v.text()) == Some(v),
    {
        reveal_strlit("StyleOxygen");
        reveal_strlit("StyleKlasse");
        reveal_strlit("StyleSuessigKite");
        reveal_strlit("StyleRedmond");
        reveal_strlit("StyleSystemIconTheme");
        reveal_strlit("StyleKlassyKite");
        assert("StyleOxygen"@[5] != "StyleKlasse"@[5]);
        assert("StyleOxygen"@.len() != "StyleSuessigKite"@.len());
        assert("StyleOxygen"@.len() != "StyleRedmond"@.len());
        assert("StyleOxygen"@.len() != "StyleSystemIconTheme"@.len());
        assert("StyleOxygen"@.len() != "StyleKlassyKite"@.len());
        assert("StyleKlasse"@.len() != "StyleSuessigKite"@.len());
        assert("StyleKlasse"@.len() != "StyleRedmond"@.len());
        assert("StyleKlasse"@.len() != "StyleSystemIconTheme"@.len());
        assert("StyleKlasse"@.len() != "StyleKlassyKite"@.len());
        assert("StyleSuessigKite"@.len() != "StyleRedmond"@.len());
        assert("StyleSuessigKite"@.len() != "StyleSystemIconTheme"@.len());
        assert("StyleSuessigKite"@.len() != "StyleKlassyKite"@.len());
        assert("StyleRedmond"@.len() != "StyleSystemIconTheme"@.len());
        assert("StyleRedmond"@.len() != "StyleKlassyKite"@.len());
        assert("StyleSystemIconTheme"@.len() != "StyleKlassyKite"@.len());
    }

    /// A text that parses is the text of the value it parses to.
    pub proof fn lemma_parse_inverse(s: Seq<char>)
        ensures
            Self::parse(s) matches Some(v) ==> v.text() == s,
    {
    }
}

/// Size of the window shadow.
#[derive(Clone, Copy, Debug, PartialEq, Eq, Hash, Structural)]
pub enum ShadowSize {
    NoShadow,
    Small,
    Medium,
    Large,
    VeryLarge,
}

impl ShadowSize {
    /// The name of a value (the variant's own name; a `None` value of Klassy's is named `None`).
    pub open spec fn name(self) -> Seq<char> {
        match self {
            ShadowSize::NoShadow => "None"@,
            ShadowSize::Small => "Small"@,
            ShadowSize::Medium => "Medium"@,
            ShadowSize::Large => "Large"@,
            ShadowSize::VeryLarge => "VeryLarge"@,
        }
    }

    /// Each value's INI text is `Shadow` followed by the value's name.
    pub proof fn lemma_text_is_named(self)
        ensures
            self.text() == "Shadow"@ + self.name(),
    {
        match self {
            ShadowSize::NoShadow => { reveal_strlit("Shadow"); reveal_strlit("None"); reveal_strlit("ShadowNone"); assert("ShadowNone"@ =~= "Shadow"@ + "None"@); },
            ShadowSize::Small => { reveal_strlit("Shadow"); reveal_strlit("Small"); reveal_strlit("ShadowSmall"); assert("ShadowSmall"@ =~= "Shadow"@ + "Small"@); },
            ShadowSize::Medium => { reveal_strlit("Shadow"); reveal_strlit("Medium"); reveal_strlit("ShadowMedium"); assert("ShadowMedium"@ =~= "Shadow"@ + "Medium"@); },
            ShadowSize::Large => { reveal_strlit("Shadow"); reveal_strlit("Large"); reveal_strlit("ShadowLarge"); assert("ShadowLarge"@ =~= "Shadow"@ + "Large"@); },
            ShadowSize::VeryLarge => { reveal_strlit("Shadow"); reveal_strlit("VeryLarge"); reveal_strlit("ShadowVeryLarge"); assert("ShadowVeryLarge"@ =~= "Shadow"@ + "VeryLarge"@); },
        }
    }

    /// The INI text of a value.
    pub open spec fn text(self) -> Seq<char> {
        match self {
            ShadowSize::NoShadow => "ShadowNone"@,
            ShadowSize::Small => "ShadowSmall"@,
            ShadowSize::Medium => "ShadowMedium"@,
            ShadowSize::Large => "ShadowLarge"@,
            ShadowSize::VeryLarge => "ShadowVeryLarge"@,
        }
    }

    /// The value whose INI text is `s`, if any.
    pub open spec fn parse(s: Seq<char>) -> Option<Self> {
        if s == "ShadowNone"@ {
            Some(ShadowSize::NoShadow)
        } else if s == "ShadowSmall"@ {
            Some(ShadowSize::Small)
        } else if s == "ShadowMedium"@ {
            Some(ShadowSize::Medium)
        } else if s == "ShadowLarge"@ {
            Some(ShadowSize::Large)
        } else if s == "ShadowVeryLarge"@ {
            Some(ShadowSize::VeryLarge)
        } else {
            None
        }
    }

    /// The values in declaration order.
    pub open spec fn variants() -> Seq<Self> {
        seq![
            ShadowSize::NoShadow,
            ShadowSize::Small,
            ShadowSize::Medium,
            ShadowSize::Large,
            ShadowSize::VeryLarge,
        ]
    }

    /// Parse from the INI string value.
    pub fn from_value(s: &str) -> (r: Option<Self>)
        ensures
            r == Self::parse(s@),
    {
        if str_eq(s, "ShadowNone") {
            Some(ShadowSize::NoShadow)
        } else if str_eq(s, "ShadowSmall") {
            Some(ShadowSize::Small)
        } else if str_eq(s, "ShadowMedium") {
            Some(ShadowSize::Medium)
        } else if str_eq(s, "ShadowLarge") {
            Some(ShadowSize::Large)
        } else if str_eq(s, "ShadowVeryLarge") {
            Some(ShadowSize::VeryLarge)
        } else {
            None
        }
    }

    /// Return the INI string value.
    pub fn value(&self) -> (r: &'static str)
        ensures
            r@ == self.text(),
    {
        match self {
            ShadowSize::NoShadow => "ShadowNone",
            ShadowSize::Small => "ShadowSmall",
            ShadowSize::Medium => "ShadowMedium",
            ShadowSize::Large => "ShadowLarge",
            ShadowSize::VeryLarge => "ShadowVeryLarge",
        }
    }

    /// Return all variants.
    pub fn all() -> (r: Vec<Self>)
        ensures
            r@ == Self::variants(),
    {
        let mut r: Vec<Self> = Vec::new();
        r.push(ShadowSize::NoShadow);
        r.push(ShadowSize::Small);
        r.push(ShadowSize::Medium);
        r.push(ShadowSize::Large);
        r.push(ShadowSize::VeryLarge);
        assert(r@ =~= Self::variants());
        r
    }

    /// Every value reads back from its INI text.
    pub proof fn lemma_text_round_trip(v: Self)
        ensures
            Self::parse(v.text()) == Some(v),
    {
        reveal_strlit("ShadowNone");
        reveal_strlit("ShadowSmall");
        reveal_strlit("ShadowMedium");
        reveal_strlit("ShadowLarge");
        reveal_strlit("ShadowVeryLarge");
        assert("ShadowNone"@.len() != "ShadowSmall"@.len());
        assert("ShadowNone"@.len() != "ShadowMedium"@.len());
        assert("ShadowNone"@.len() != "ShadowLarge"@.len());
        assert("ShadowNone"@.len() != "ShadowVeryLarge"@.len());
        assert("ShadowSmall"@.len() != "ShadowMedium"@.len());
        assert("ShadowSmall"@[6] != "ShadowLarge"@[6]);
        assert("ShadowSmall"@.len() != "ShadowVeryLarge"@.len());
        assert("ShadowMedium"@.len() != "ShadowLarge"@.len());
        assert("ShadowMedium"@.len() != "ShadowVeryLarge"@.len());
        assert("ShadowLarge"@.len() != "ShadowVeryLarge"@.len());
    }

    /// A text that parses is the text of the value it parses to.
    pub proof fn lemma_parse_inverse(s: Seq<char>)
        ensures
            Self::parse(s) matches Some(v) ==> v.text() == s,
    {
    }
}

/// Horizontal alignment of the window title.
#[derive(Clone, Copy, Debug, PartialEq, Eq, Hash, Structural)]
pub enum TitleAlignment {
    Left,
    Center,
    CenterFullWidth,
    Right,
}

impl TitleAlignment {
    /// The name of a value (the variant's own name; a `None` value of Klassy's is named `None`).
    pub open spec fn name(self) -> Seq<char> {
        match self {
            TitleAlignment::Left => "Left"@,
            TitleAlignment::Center => "Center"@,
            TitleAlignment::CenterFullWidth => "CenterFullWidth"@,
            TitleAlignment::Right => "Right"@,
        }
    }

    /// Each value's INI text is `Align` followed by the value's name.
    pub proof fn lemma_text_is_named(self)
        ensures
            self.text() == "Align"@ + self.name(),
    {
        match self {
            TitleAlignment::Left => { reveal_strlit("Align"); reveal_strlit("Left"); reveal_strlit("AlignLeft"); assert("AlignLeft"@ =~= "Align"@ + "Left"@); },
            TitleAlignment::Center => { reveal_strlit("Align"); reveal_strlit("Center"); reveal_strlit("AlignCenter"); assert("AlignCenter"@ =~= "Align"@ + "Center"@); },
            TitleAlignment::CenterFullWidth => { reveal_strlit("Align"); reveal_strlit("CenterFullWidth"); reveal_strlit("AlignCenterFullWidth"); assert("AlignCenterFullWidth"@ =~= "Align"@ + "CenterFullWidth"@); },
            TitleAlignment::Right => { reveal_strlit("Align"); reveal_strlit("Right"); reveal_strlit("AlignRight"); assert("AlignRight"@ =~= "Align"@ + "Right"@); },
        }
    }

    /// The INI text of a value.
    pub open spec fn text(self) -> Seq<char> {
        match self {
            TitleAlignment::Left => "AlignLeft"@,
            TitleAlignment::Center => "AlignCenter"@,
            TitleAlignment::CenterFullWidth => "AlignCenterFullWidth"@,
            TitleAlignment::Right => "AlignRight"@,
        }
    }

    /// The value whose INI text is `s`, if any.
    pub open spec fn parse(s: Seq<char>) -> Option<Self> {
        if s == "AlignLeft"@ {
            Some(TitleAlignment::Left)
        } else if s == "AlignCenter"@ {
            Some(TitleAlignment::Center)
        } else if s == "AlignCenterFullWidth"@ {
            Some(TitleAlignment::CenterFullWidth)
        } else if s == "AlignRight"@ {
            Some(TitleAlignment::Right)
        } else {
            None
        }
    }

    /// The values in declaration order.
    pub open spec fn variants() -> Seq<Self> {
        seq![
            TitleAlignment::Left,
            TitleAlignment::Center,
            TitleAlignment::CenterFullWidth,
            TitleAlignment::Right,
        ]
    }

    /// Parse from the INI string value.
    pub fn from_value(s: &str) -> (r: Option<Self>)
        ensures
            r == Self::parse(s@),
    {
        if str_eq(s, "AlignLeft") {
            Some(TitleAlignment::Left)
        } else if str_eq(s, "AlignCenter") {
            Some(TitleAlignment::Center)
        } else if str_eq(s, "AlignCenterFullWidth") {
            Some(TitleAlignment::CenterFullWidth)
        } else if str_eq(s, "AlignRight") {
            Some(TitleAlignment::Right)
        } else {
            None
        }
    }

    /// Return the INI string value.
    pub fn value(&self) -> (r: &'static str)
        ensures
            r@ == self.text(),
    {
        match self {
            TitleAlignment::Left => "AlignLeft",
            TitleAlignment::Center => "AlignCenter",
            TitleAlignment::CenterFullWidth => "AlignCenterFullWidth",
            TitleAlignment::Right => "AlignRight",
        }
    }

    /// Return all variants.
    pub fn all() -> (r: Vec<Self>)
        ensures
            r@ == Self::variants(),
    {
        let mut r: Vec<Self> = Vec::new();
        r.push(TitleAlignment::Left);
        r.push(TitleAlignment::Center);
        r.push(TitleAlignment::CenterFullWidth);
        r.push(TitleAlignment::Right);
        assert(r@ =~= Self::variants());
        r
    }

    /// Every value reads back from its INI text.
    pub proof fn lemma_text_round_trip(v: Self)
        ensures
            Self::parse(v.text()) == Some(v),
    {
        reveal_strlit("AlignLeft");
        reveal_strlit("AlignCenter");
        reveal_strlit("AlignCenterFullWidth");
        reveal_strlit("AlignRight");
        assert("AlignLeft"@.len() != "AlignCenter"@.len());
        assert("AlignLeft"@.len() != "AlignCenterFullWidth"@.len());
        assert("AlignLeft"@.len() != "AlignRight"@.len());
        assert("AlignCenter"@.len() != "AlignCenterFullWidth"@.len());
        assert("AlignCenter"@.len() != "AlignRight"@.len());
        assert("AlignCenterFullWidth"@.len() != "AlignRight"@.len());
    }

    /// A text that parses is the text of the value it parses to.
    pub proof fn lemma_parse_inverse(s: Seq<char>)
        ensures
            Self::parse(s) matches Some(v) ==> v.text() == s,
    {
    }
}

/// Window outline style.
#[derive(Clone, Copy, Debug, PartialEq, Eq, Hash, Structural)]
pub enum WindowOutlineStyle {
    NoOutline,
    ShadowColor,
    CustomColor,
    AccentColor,
    AccentWithContrast,
    CustomWithContrast,
    ContrastOnly,
}

impl WindowOutlineStyle {
    /// The name of a value (the variant's own name; a `None` value of Klassy's is named `None`).
    pub open spec fn name(self) -> Seq<char> {
        match self {
            WindowOutlineStyle::NoOutline => "None"@,
            WindowOutlineStyle::ShadowColor => "ShadowColor"@,
            WindowOutlineStyle::CustomColor => "CustomColor"@,
            WindowOutlineStyle::AccentColor => "AccentColor"@,
            WindowOutlineStyle::AccentWithContrast => "AccentWithContrast"@,
            WindowOutlineStyle::CustomWithContrast => "CustomWithContrast"@,
            WindowOutlineStyle::ContrastOnly => "ContrastOnly"@,
        }
    }

    /// Each value's INI text is `WindowOutline` followed by the value's name.
    pub proof fn lemma_text_is_named(self)
        ensures
            self.text() == "WindowOutline"@ + self.name(),
    {
        match self {
            WindowOutlineStyle::NoOutline => { reveal_strlit("WindowOutline"); reveal_strlit("None"); reveal_strlit("WindowOutlineNone"); assert("WindowOutlineNone"@ =~= "WindowOutline"@ + "None"@); },
            WindowOutlineStyle::ShadowColor => { reveal_strlit("WindowOutline"); reveal_strlit("ShadowColor"); reveal_strlit("WindowOutlineShadowColor"); assert("WindowOutlineShadowColor"@ =~= "WindowOutline"@ + "ShadowColor"@); },
            WindowOutlineStyle::CustomColor => { reveal_strlit("WindowOutline"); reveal_strlit("CustomColor"); reveal_strlit("WindowOutlineCustomColor"); assert("WindowOutlineCustomColor"@ =~= "WindowOutline"@ + "CustomColor"@); },
            WindowOutlineStyle::AccentColor => { reveal_strlit("WindowOutline"); reveal_strlit("AccentColor"); reveal_strlit("WindowOutlineAccentColor"); assert("WindowOutlineAccentColor"@ =~= "WindowOutline"@ + "AccentColor"@); },
            WindowOutlineStyle::AccentWithContrast => { reveal_strlit("WindowOutline"); reveal_strlit("AccentWithContrast"); reveal_strlit("WindowOutlineAccentWithContrast"); assert("WindowOutlineAccentWithContrast"@ =~= "WindowOutline"@ + "AccentWithContrast"@); },
            WindowOutlineStyle::CustomWithContrast => { reveal_strlit("WindowOutline"); reveal_strlit("CustomWithContrast"); reveal_strlit("WindowOutlineCustomWithContrast"); assert("WindowOutlineCustomWithContrast"@ =~= "WindowOutline"@ + "CustomWithContrast"@); },
            WindowOutlineStyle::ContrastOnly => { reveal_strlit("WindowOutline"); reveal_strlit("ContrastOnly"); reveal_strlit("WindowOutlineContrastOnly"); assert("WindowOutlineContrastOnly"@ =~= "WindowOutline"@ + "ContrastOnly"@); },
        }
    }

    /// The INI text of a value.
    pub open spec fn text(self) -> Seq<char> {
        match self {
            WindowOutlineStyle::NoOutline => "WindowOutlineNone"@,
            WindowOutlineStyle::ShadowColor => "WindowOutlineShadowColor"@,
            WindowOutlineStyle::CustomColor => "WindowOutlineCustomColor"@,
            WindowOutlineStyle::AccentColor => "WindowOutlineAccentColor"@,
            WindowOutlineStyle::AccentWithContrast => "WindowOutlineAccentWithContrast"@,
            WindowOutlineStyle::CustomWithContrast => "WindowOutlineCustomWithContrast"@,
            WindowOutlineStyle::ContrastOnly => "WindowOutlineContrastOnly"@,
        }
    }

    /// The value whose INI text is `s`, if any.
    pub open spec fn parse(s: Seq<char>) -> Option<Self> {
        if s == "WindowOutlineNone"@ {
            Some(WindowOutlineStyle::NoOutline)
        } else if s == "WindowOutlineShadowColor"@ {
            Some(WindowOutlineStyle::ShadowColor)
        } else if s == "WindowOutlineCustomColor"@ {
            Some(WindowOutlineStyle::CustomColor)
        } else if s == "WindowOutlineAccentColor"@ {
            Some(WindowOutlineStyle::AccentColor)
        } else if s == "WindowOutlineAccentWithContrast"@ {
            Some(WindowOutlineStyle::AccentWithContrast)
        } else if s == "WindowOutlineCustomWithContrast"@ {
            Some(WindowOutlineStyle::CustomWithContrast)
        } else if s == "WindowOutlineContrastOnly"@ {
            Some(WindowOutlineStyle::ContrastOnly)
        } else {
            None
        }
    }

    /// The values in declaration order.
    pub open spec fn variants() -> Seq<Self> {
        seq![
            WindowOutlineStyle::NoOutline,
            WindowOutlineStyle::ShadowColor,
            WindowOutlineStyle::CustomColor,
            WindowOutlineStyle::AccentColor,
            WindowOutlineStyle::AccentWithContrast,
            WindowOutlineStyle::CustomWithContrast,
            WindowOutlineStyle::ContrastOnly,
        ]
    }

    /// Parse from the INI string value.
    pub fn from_value(s: &str) -> (r: Option<Self>)
        ensures
            r == Self::parse(s@),
    {
        if str_eq(s, "WindowOutlineNone") {
            Some(WindowOutlineStyle::NoOutline)
        } else if str_eq(s, "WindowOutlineShadowColor") {
            Some(WindowOutlineStyle::ShadowColor)
        } else if str_eq(s, "WindowOutlineCustomColor") {
            Some(WindowOutlineStyle::CustomColor)
        } else if str_eq(s, "WindowOutlineAccentColor") {
            Some(WindowOutlineStyle::AccentColor)
        } else if str_eq(s, "WindowOutlineAccentWithContrast") {
            Some(WindowOutlineStyle::AccentWithContrast)
        } else if str_eq(s, "WindowOutlineCustomWithContrast") {
            Some(WindowOutlineStyle::CustomWithContrast)
        } else if str_eq(s, "WindowOutlineContrastOnly") {
            Some(WindowOutlineStyle::ContrastOnly)
        } else {
            None
        }
    }

    /// Return the INI string value.
    pub fn value(&self) -> (r: &'static str)
        ensures
            r@ == self.text(),
    {
        match self {
            WindowOutlineStyle::NoOutline => "WindowOutlineNone",
            WindowOutlineStyle::ShadowColor => "WindowOutlineShadowColor",
            WindowOutlineStyle::CustomColor => "WindowOutlineCustomColor",
            WindowOutlineStyle::AccentColor => "WindowOutlineAccentColor",
            WindowOutlineStyle::AccentWithContrast => "WindowOutlineAccentWithContrast",
            WindowOutlineStyle::CustomWithContrast => "WindowOutlineCustomWithContrast",
            WindowOutlineStyle::ContrastOnly => "WindowOutlineContrastOnly",
        }
    }

    /// Return all variants.
    pub fn all() -> (r: Vec<Self>)
        ensures
            r@ == Self::variants(),
    {
        let mut r: Vec<Self> = Vec::new();
        r.push(WindowOutlineStyle::NoOutline);
        r.push(WindowOutlineStyle::ShadowColor);
        r.push(WindowOutlineStyle::CustomColor);
        r.push(WindowOutlineStyle::AccentColor);
        r.push(WindowOutlineStyle::AccentWithContrast);
        r.push(WindowOutlineStyle::CustomWithContrast);
        r.push(WindowOutlineStyle::ContrastOnly);
        assert(r@ =~= Self::variants());
        r
    }

    /// Every value reads back from its INI text.
    pub proof fn lemma_text_round_trip(v: Self)
        ensures
            Self::parse(v.text()) == Some(v),
    {
        reveal_strlit("WindowOutlineNone");
        reveal_strlit("WindowOutlineShadowColor");
        reveal_strlit("WindowOutlineCustomColor");
        reveal_strlit("WindowOutlineAccentColor");
        reveal_strlit("WindowOutlineAccentWithContrast");
        reveal_strlit("WindowOutlineCustomWithContrast");
        reveal_strlit("WindowOutlineContrastOnly");
        assert("WindowOutlineNone"@.len() != "WindowOutlineShadowColor"@.len());
        assert("WindowOutlineNone"@.len() != "WindowOutlineCustomColor"@.len());
        assert("WindowOutlineNone"@.len() != "WindowOutlineAccentColor"@.len());
        assert("WindowOutlineNone"@.len() != "WindowOutlineAccentWithContrast"@.len());
        assert("WindowOutlineNone"@.len() != "WindowOutlineCustomWithContrast"@.len());
        assert("WindowOutlineNone"@.len() != "WindowOutlineContrastOnly"@.len());
        assert("WindowOutlineShadowColor"@[13] != "WindowOutlineCustomColor"@[13]);
        assert("WindowOutlineShadowColor"@[13] != "WindowOutlineAccentColor"@[13]);
        assert("WindowOutlineShadowColor"@.len() != "WindowOutlineAccentWithContrast"@.len());
        assert("WindowOutlineShadowColor"@.len() != "WindowOutlineCustomWithContrast"@.len());
        assert("WindowOutlineShadowColor"@.len() != "WindowOutlineContrastOnly"@.len());
        assert("WindowOutlineCustomColor"@[13] != "WindowOutlineAccentColor"@[13]);
        assert("WindowOutlineCustomColor"@.len() != "WindowOutlineAccentWithContrast"@.len());
        assert("WindowOutlineCustomColor"@.len() != "WindowOutlineCustomWithContrast"@.len());
        assert("WindowOutlineCustomColor"@.len() != "WindowOutlineContrastOnly"@.len());
        assert("WindowOutlineAccentColor"@.len() != "WindowOutlineAccentWithContrast"@.len());
        assert("WindowOutlineAccentColor"@.len() != "WindowOutlineCustomWithContrast"@.len());
        assert("WindowOutlineAccentColor"@.len() != "WindowOutlineContrastOnly"@.len());
        assert("WindowOutlineAccentWithContrast"@[13] != "WindowOutlineCustomWithContrast"@[13]);
        assert("WindowOutlineAccentWithContrast"@.len() != "WindowOutlineContrastOnly"@.len());
        assert("WindowOutlineCustomWithContrast"@.len() != "WindowOutlineContrastOnly"@.len());
    }

    /// A text that parses is the text of the value it parses to.
    pub proof fn lemma_parse_inverse(s: Seq<char>)
        ensures
            Self::parse(s) matches Some(v) ==> v.text() == s,
    {
    }
}

/// Background color scheme for window decoration buttons.
#[derive(Clone, Copy, Debug, PartialEq, Eq, Hash, Structural)]
pub enum ButtonBackgroundColors {
    TitleBarText,
    TitleBarTextNegativeClose,
    AccentTrafficLights,
    AccentWithNegativeClose,
    Accent,
}

impl ButtonBackgroundColors {
    /// The name of a value (the variant's own name; a `None` value of Klassy's is named `None`).
    pub open spec fn name(self) -> Seq<char> {
        match self {
            ButtonBackgroundColors::TitleBarText => "TitleBarText"@,
            ButtonBackgroundColors::TitleBarTextNegativeClose => "TitleBarTextNegativeClose"@,
            ButtonBackgroundColors::AccentTrafficLights => "AccentTrafficLights"@,
            ButtonBackgroundColors::AccentWithNegativeClose => "AccentWithNegativeClose"@,
            ButtonBackgroundColors::Accent => "Accent"@,
        }
    }

    /// Each value's INI text is the value's name.
    pub proof fn lemma_text_is_named(self)
        ensures
            self.text() == self.name(),
    {
        match self {
            ButtonBackgroundColors::TitleBarText => {},
            ButtonBackgroundColors::TitleBarTextNegativeClose => {},
            ButtonBackgroundColors::AccentTrafficLights => {},
            ButtonBackgroundColors::AccentWithNegativeClose => {},
            ButtonBackgroundColors::Accent => {},
        }
    }

    /// The INI text of a value.
    pub open spec fn text(self) -> Seq<char> {
        match self {
            ButtonBackgroundColors::TitleBarText => "TitleBarText"@,
            ButtonBackgroundColors::TitleBarTextNegativeClose => "TitleBarTextNegativeClose"@,
            ButtonBackgroundColors::AccentTrafficLights => "AccentTrafficLights"@,
            ButtonBackgroundColors::AccentWithNegativeClose => "AccentWithNegativeClose"@,
            ButtonBackgroundColors::Accent => "Accent"@,
        }
    }

    /// The value whose INI text is `s`, if any.
    pub open spec fn parse(s: Seq<char>) -> Option<Self> {
        if s == "TitleBarText"@ {
            Some(ButtonBackgroundColors::TitleBarText)
        } else if s == "TitleBarTextNegativeClose"@ {
            Some(ButtonBackgroundColors::TitleBarTextNegativeClose)
        } else if s == "AccentTrafficLights"@ {
            Some(ButtonBackgroundColors::AccentTrafficLights)
        } else if s == "AccentWithNegativeClose"@ {
            Some(ButtonBackgroundColors::AccentWithNegativeClose)
        } else if s == "Accent"@ {
            Some(ButtonBackgroundColors::Accent)
        } else {
            None
        }
    }

    /// The values in declaration order.
    pub open spec fn variants() -> Seq<Self> {
        seq![
            ButtonBackgroundColors::TitleBarText,
            ButtonBackgroundColors::TitleBarTextNegativeClose,
            ButtonBackgroundColors::AccentTrafficLights,
            ButtonBackgroundColors::AccentWithNegativeClose,
            ButtonBackgroundColors::Accent,
        ]
    }

    /// Parse from the INI string value.
    pub fn from_value(s: &str) -> (r: Option<Self>)
        ensures
            r == Self::parse(s@),
    {
        if str_eq(s, "TitleBarText") {
            Some(ButtonBackgroundColors::TitleBarText)
        } else if str_eq(s, "TitleBarTextNegativeClose") {
            Some(ButtonBackgroundColors::TitleBarTextNegativeClose)
        } else if str_eq(s, "AccentTrafficLights") {
            Some(ButtonBackgroundColors::AccentTrafficLights)
        } else if str_eq(s, "AccentWithNegativeClose") {
            Some(ButtonBackgroundColors::AccentWithNegativeClose)
        } else if str_eq(s, "Accent") {
            Some(ButtonBackgroundColors::Accent)
        } else {
            None
        }
    }

    /// Return the INI string value.
    pub fn value(&self) -> (r: &'static str)
        ensures
            r@ == self.text(),
    {
        match self {
            ButtonBackgroundColors::TitleBarText => "TitleBarText",
            ButtonBackgroundColors::TitleBarTextNegativeClose => "TitleBarTextNegativeClose",
            ButtonBackgroundColors::AccentTrafficLights => "AccentTrafficLights",
            ButtonBackgroundColors::AccentWithNegativeClose => "AccentWithNegativeClose",
            ButtonBackgroundColors::Accent => "Accent",
        }
    }

    /// Return all variants.
    pub fn all() -> (r: Vec<Self>)
        ensures
            r@ == Self::variants(),
    {
        let mut r: Vec<Self> = Vec::new();
        r.push(ButtonBackgroundColors::TitleBarText);
        r.push(ButtonBackgroundColors::TitleBarTextNegativeClose);
        r.push(ButtonBackgroundColors::AccentTrafficLights);
        r.push(ButtonBackgroundColors::AccentWithNegativeClose);
        r.push(ButtonBackgroundColors::Accent);
        assert(r@ =~= Self::variants());
        r
    }

    /// Every value reads back from its INI text.
    pub proof fn lemma_text_round_trip(v: Self)
        ensures
            Self::parse(v.text()) == Some(v),
    {
        reveal_strlit("TitleBarText");
        reveal_strlit("TitleBarTextNegativeClose");
        reveal_strlit("AccentTrafficLights");
        reveal_strlit("AccentWithNegativeClose");
        reveal_strlit("Accent");
        assert("TitleBarText"@.len() != "TitleBarTextNegativeClose"@.len());
        assert("TitleBarText"@.len() != "AccentTrafficLights"@.len());
        assert("TitleBarText"@.len() != "AccentWithNegativeClose"@.len());
        assert("TitleBarText"@.len() != "Accent"@.len());
        assert("TitleBarTextNegativeClose"@.len() != "AccentTrafficLights"@.len());
        assert("TitleBarTextNegativeClose"@.len() != "AccentWithNegativeClose"@.len());
        assert("TitleBarTextNegativeClose"@.len() != "Accent"@.len());
        assert("AccentTrafficLights"@.len() != "AccentWithNegativeClose"@.len());
        assert("AccentTrafficLights"@.len() != "Accent"@.len());
        assert("AccentWithNegativeClose"@.len() != "Accent"@.len());
    }

    /// A text that parses is the text of the value it parses to.
    pub proof fn lemma_parse_inverse(s: Seq<char>)
        ensures
            Self::parse(s) matches Some(v) ==> v.text() == s,
    {
    }
}

/// Button icon size.
#[derive(Clone, Copy, Debug, PartialEq, Eq, Hash, Structural)]
pub enum IconSize {
    Small,
    SmallMedium,
    Medium,
    LargeMedium,
    Large,
}

impl IconSize {
    /// The name of a value (the variant's own name; a `None` value of Klassy's is named `None`).
    pub open spec fn name(self) -> Seq<char> {
        match self {
            IconSize::Small => "Small"@,
            IconSize::SmallMedium => "SmallMedium"@,
            IconSize::Medium => "Medium"@,
            IconSize::LargeMedium => "LargeMedium"@,
            IconSize::Large => "Large"@,
        }
    }

    /// Each value's INI text is `Icon` followed by the value's name.
    pub proof fn lemma_text_is_named(self)
        ensures
            self.text() == "Icon"@ + self.name(),
    {
        match self {
            IconSize::Small => { reveal_strlit("Icon"); reveal_strlit("Small"); reveal_strlit("IconSmall"); assert("IconSmall"@ =~= "Icon"@ + "Small"@); },
            IconSize::SmallMedium => { reveal_strlit("Icon"); reveal_strlit("SmallMedium"); reveal_strlit("IconSmallMedium"); assert("IconSmallMedium"@ =~= "Icon"@ + "SmallMedium"@); },
            IconSize::Medium => { reveal_strlit("Icon"); reveal_strlit("Medium"); reveal_strlit("IconMedium"); assert("IconMedium"@ =~= "Icon"@ + "Medium"@); },
            IconSize::LargeMedium => { reveal_strlit("Icon"); reveal_strlit("LargeMedium"); reveal_strlit("IconLargeMedium"); assert("IconLargeMedium"@ =~= "Icon"@ + "LargeMedium"@); },
            IconSize::Large => { reveal_strlit("Icon"); reveal_strlit("Large"); reveal_strlit("IconLarge"); assert("IconLarge"@ =~= "Icon"@ + "Large"@); },
        }
    }

    /// The INI text of a value.
    pub open spec fn text(self) -> Seq<char> {
        match self {
            IconSize::Small => "IconSmall"@,
            IconSize::SmallMedium => "IconSmallMedium"@,
            IconSize::Medium => "IconMedium"@,
            IconSize::LargeMedium => "IconLargeMedium"@,
            IconSize::Large => "IconLarge"@,
        }
    }

    /// The value whose INI text is `s`, if any.
    pub open spec fn parse(s: Seq<char>) -> Option<Self> {
        if s == "IconSmall"@ {
            Some(IconSize::Small)
        } else if s == "IconSmallMedium"@ {
            Some(IconSize::SmallMedium)
        } else if s == "IconMedium"@ {
            Some(IconSize::Medium)
        } else if s == "IconLargeMedium"@ {
            Some(IconSize::LargeMedium)
        } else if s == "IconLarge"@ {
            Some(IconSize::Large)
        } else {
            None
        }
    }

    /// The values in declaration order.
    pub open spec fn variants() -> Seq<Self> {
        seq![
            IconSize::Small,
            IconSize::SmallMedium,
            IconSize::Medium,
            IconSize::LargeMedium,
            IconSize::Large,
        ]
    }

    /// Parse from the INI string value.
    pub fn from_value(s: &str) -> (r: Option<Self>)
        ensures
            r == Self::parse(s@),
    {
        if str_eq(s, "IconSmall") {
            Some(IconSize::Small)
        } else if str_eq(s, "IconSmallMedium") {
            Some(IconSize::SmallMedium)
        } else if str_eq(s, "IconMedium") {
            Some(IconSize::Medium)
        } else if str_eq(s, "IconLargeMedium") {
            Some(IconSize::LargeMedium)
        } else if str_eq(s, "IconLarge") {
            Some(IconSize::Large)
        } else {
            None
        }
    }

    /// Return the INI string value.
    pub fn value(&self) -> (r: &'static str)
        ensures
            r@ == self.text(),
    {
        match self {
            IconSize::Small => "IconSmall",
            IconSize::SmallMedium => "IconSmallMedium",
            IconSize::Medium => "IconMedium",
            IconSize::LargeMedium => "IconLargeMedium",
            IconSize::Large => "IconLarge",
        }
    }

    /// Return all variants.
    pub fn all() -> (r: Vec<Self>)
        ensures
            r@ == Self::variants(),
    {
        let mut r: Vec<Self> = Vec::new();
        r.push(IconSize::Small);
        r.push(IconSize::SmallMedium);
        r.push(IconSize::Medium);
        r.push(IconSize::LargeMedium);
        r.push(IconSize::Large);
        assert(r@ =~= Self::variants());
        r
    }

    /// Every value reads back from its INI text.
    pub proof fn lemma_text_round_trip(v: Self)
        ensures
            Self::parse(v.text()) == Some(v),
    {
        reveal_strlit("IconSmall");
        reveal_strlit("IconSmallMedium");
        reveal_strlit("IconMedium");
        reveal_strlit("IconLargeMedium");
        reveal_strlit("IconLarge");
        assert("IconSmall"@.len() != "IconSmallMedium"@.len());
        assert("IconSmall"@.len() != "IconMedium"@.len());
        assert("IconSmall"@.len() != "IconLargeMedium"@.len());
        assert("IconSmall"@[4] != "IconLarge"@[4]);
        assert("IconSmallMedium"@.len() != "IconMedium"@.len());
        assert("IconSmallMedium"@[4] != "IconLargeMedium"@[4]);
        assert("IconSmallMedium"@.len() != "IconLarge"@.len());
        assert("IconMedium"@.len() != "IconLargeMedium"@.len());
        assert("IconMedium"@.len() != "IconLarge"@.len());
        assert("IconLargeMedium"@.len() != "IconLarge"@.len());
    }

    /// A text that parses is the text of the value it parses to.
    pub proof fn lemma_parse_inverse(s: Seq<char>)
        ensures
            Self::parse(s) matches Some(v) ==> v.text() == s,
    {
    }
}

/// System icon size for system icon theme style.
#[derive(Clone, Copy, Debug, PartialEq, Eq, Hash, Structural)]
pub enum SystemIconSize {
    Icon16,
    Icon22,
    Icon32,
    Icon48,
}

impl SystemIconSize {
    /// The name of a value (the variant's own name; a `None` value of Klassy's is named `None`).
    pub open spec fn name(self) -> Seq<char> {
        match self {
            SystemIconSize::Icon16 => "Icon16"@,
            SystemIconSize::Icon22 => "Icon22"@,
            SystemIconSize::Icon32 => "Icon32"@,
            SystemIconSize::Icon48 => "Icon48"@,
        }
    }

    /// Each value's INI text is `System` followed by the value's name.
    pub proof fn lemma_text_is_named(self)
        ensures
            self.text() == "System"@ + self.name(),
    {
        match self {
            SystemIconSize::Icon16 => { reveal_strlit("System"); reveal_strlit("Icon16"); reveal_strlit("SystemIcon16"); assert("SystemIcon16"@ =~= "System"@ + "Icon16"@); },
            SystemIconSize::Icon22 => { reveal_strlit("System"); reveal_strlit("Icon22"); reveal_strlit("SystemIcon22"); assert("SystemIcon22"@ =~= "System"@ + "Icon22"@); },
            SystemIconSize::Icon32 => { reveal_strlit("System"); reveal_strlit("Icon32"); reveal_strlit("SystemIcon32"); assert("SystemIcon32"@ =~= "System"@ + "Icon32"@); },
            SystemIconSize::Icon48 => { reveal_strlit("System"); reveal_strlit("Icon48"); reveal_strlit("SystemIcon48"); assert("SystemIcon48"@ =~= "System"@ + "Icon48"@); },
        }
    }

    /// The INI text of a value.
    pub open spec fn text(self) -> Seq<char> {
        match self {
            SystemIconSize::Icon16 => "SystemIcon16"@,
            SystemIconSize::Icon22 => "SystemIcon22"@,
            SystemIconSize::Icon32 => "SystemIcon32"@,
            SystemIconSize::Icon48 => "SystemIcon48"@,
        }
    }

    /// The value whose INI text is `s`, if any.
    pub open spec fn parse(s: Seq<char>) -> Option<Self> {
        if s == "SystemIcon16"@ {
            Some(SystemIconSize::Icon16)
        } else if s == "SystemIcon22"@ {
            Some(SystemIconSize::Icon22)
        } else if s == "SystemIcon32"@ {
            Some(SystemIconSize::Icon32)
        } else if s == "SystemIcon48"@ {
            Some(SystemIconSize::Icon48)
        } else {
            None
        }
    }

    /// The values in declaration order.
    pub open spec fn variants() -> Seq<Self> {
        seq![
            SystemIconSize::Icon16,
            SystemIconSize::Icon22,
            SystemIconSize::Icon32,
            SystemIconSize::Icon48,
        ]
    }

    /// Parse from the INI string value.
    pub fn from_value(s: &str) -> (r: Option<Self>)
        ensures
            r == Self::parse(s@),
    {
        if str_eq(s, "SystemIcon16") {
            Some(SystemIconSize::Icon16)
        } else if str_eq(s, "SystemIcon22") {
            Some(SystemIconSize::Icon22)
        } else if str_eq(s, "SystemIcon32") {
            Some(SystemIconSize::Icon32)
        } else if str_eq(s, "SystemIcon48") {
            Some(SystemIconSize::Icon48)
        } else {
            None
        }
    }

    /// Return the INI string value.
    pub fn value(&self) -> (r: &'static str)
        ensures
            r@ == self.text(),
    {
        match self {
            SystemIconSize::Icon16 => "SystemIcon16",
            SystemIconSize::Icon22 => "SystemIcon22",
            SystemIconSize::Icon32 => "SystemIcon32",
            SystemIconSize::Icon48 => "SystemIcon48",
        }
    }

    /// Return all variants.
    pub fn all() -> (r: Vec<Self>)
        ensures
            r@ == Self::variants(),
    {
        let mut r: Vec<Self> = Vec::new();
        r.push(SystemIconSize::Icon16);
        r.push(SystemIconSize::Icon22);
        r.push(SystemIconSize::Icon32);
        r.push(SystemIconSize::Icon48);
        assert(r@ =~= Self::variants());
        r
    }

    /// Every value reads back from its INI text.
    pub proof fn lemma_text_round_trip(v: Self)
        ensures
            Self::parse(v.text()) == Some(v),
    {
        reveal_strlit("SystemIcon16");
        reveal_strlit("SystemIcon22");
        reveal_strlit("SystemIcon32");
        reveal_strlit("SystemIcon48");
        assert("SystemIcon16"@[10] != "SystemIcon22"@[10]);
        assert("SystemIcon16"@[10] != "SystemIcon32"@[10]);
        assert("SystemIcon16"@[10] != "SystemIcon48"@[10]);
        assert("SystemIcon22"@[10] != "SystemIcon32"@[10]);
        assert("SystemIcon22"@[10] != "SystemIcon48"@[10]);
        assert("SystemIcon32"@[10] != "SystemIcon48"@[10]);
    }

    /// A text that parses is the text of the value it parses to.
    pub proof fn lemma_parse_inverse(s: Seq<char>)
        ensures
            Self::parse(s) matches Some(v) ==> v.text() == s,
    {
    }
}

/// KWin border size.
#[derive(Clone, Copy, Debug, PartialEq, Eq, Hash, Structural)]
pub enum KwinBorderSize {
    NoBorder,
    NoSides,
    Tiny,
    Normal,
    Large,
    VeryLarge,
    Huge,
    VeryHuge,
    Oversized,
}

impl KwinBorderSize {
    /// The name of a value (the variant's own name; a `None` value of Klassy's is named `None`).
    pub open spec fn name(self) -> Seq<char> {
        match self {
            KwinBorderSize::NoBorder => "None"@,
            KwinBorderSize::NoSides => "NoSides"@,
            KwinBorderSize::Tiny => "Tiny"@,
            KwinBorderSize::Normal => "Normal"@,
            KwinBorderSize::Large => "Large"@,
            KwinBorderSize::VeryLarge => "VeryLarge"@,
            KwinBorderSize::Huge => "Huge"@,
            KwinBorderSize::VeryHuge => "VeryHuge"@,
            KwinBorderSize::Oversized => "Oversized"@,
        }
    }

    /// Each value's INI text is the value's name.
    pub proof fn lemma_text_is_named(self)
        ensures
            self.text() == self.name(),
    {
        match self {
            KwinBorderSize::NoBorder => {},
            KwinBorderSize::NoSides => {},
            KwinBorderSize::Tiny => {},
            KwinBorderSize::Normal => {},
            KwinBorderSize::Large => {},
            KwinBorderSize::VeryLarge => {},
            KwinBorderSize::Huge => {},
            KwinBorderSize::VeryHuge => {},
            KwinBorderSize::Oversized => {},
        }
    }

    /// The INI text of a value.
    pub open spec fn text(self) -> Seq<char> {
        match self {
            KwinBorderSize::NoBorder => "None"@,
            KwinBorderSize::NoSides => "NoSides"@,
            KwinBorderSize::Tiny => "Tiny"@,
            KwinBorderSize::Normal => "Normal"@,
            KwinBorderSize::Large => "Large"@,
            KwinBorderSize::VeryLarge => "VeryLarge"@,
            KwinBorderSize::Huge => "Huge"@,
            KwinBorderSize::VeryHuge => "VeryHuge"@,
            KwinBorderSize::Oversized => "Oversized"@,
        }
    }

    /// The value whose INI text is `s`, if any.
    pub open spec fn parse(s: Seq<char>) -> Option<Self> {
        if s == "None"@ {
            Some(KwinBorderSize::NoBorder)
        } else if s == "NoSides"@ {
            Some(KwinBorderSize::NoSides)
        } else if s == "Tiny"@ {
            Some(KwinBorderSize::Tiny)
        } else if s == "Normal"@ {
            Some(KwinBorderSize::Normal)
        } else if s == "Large"@ {
            Some(KwinBorderSize::Large)
        } else if s == "VeryLarge"@ {
            Some(KwinBorderSize::VeryLarge)
        } else if s == "Huge"@ {
            Some(KwinBorderSize::Huge)
        } else if s == "VeryHuge"@ {
            Some(KwinBorderSize::VeryHuge)
        } else if s == "Oversized"@ {
            Some(KwinBorderSize::Oversized)
        } else {
            None
        }
    }

    /// The values in declaration order.
    pub open spec fn variants() -> Seq<Self> {
        seq![
            KwinBorderSize::NoBorder,
            KwinBorderSize::NoSides,
            KwinBorderSize::Tiny,
            KwinBorderSize::Normal,
            KwinBorderSize::Large,
            KwinBorderSize::VeryLarge,
            KwinBorderSize::Huge,
            KwinBorderSize::VeryHuge,
            KwinBorderSize::Oversized,
        ]
    }

    /// Parse from the INI string value.
    pub fn from_value(s: &str) -> (r: Option<Self>)
        ensures
            r == Self::parse(s@),
    {
        if str_eq(s, "None") {
            Some(KwinBorderSize::NoBorder)
        } else if str_eq(s, "NoSides") {
            Some(KwinBorderSize::NoSides)
        } else if str_eq(s, "Tiny") {
            Some(KwinBorderSize::Tiny)
        } else if str_eq(s, "Normal") {
            Some(KwinBorderSize::Normal)
        } else if str_eq(s, "Large") {
            Some(KwinBorderSize::Large)
        } else if str_eq(s, "VeryLarge") {
            Some(KwinBorderSize::VeryLarge)
        } else if str_eq(s, "Huge") {
            Some(KwinBorderSize::Huge)
        } else if str_eq(s, "VeryHuge") {
            Some(KwinBorderSize::VeryHuge)
        } else if str_eq(s, "Oversized") {
            Some(KwinBorderSize::Oversized)
        } else {
            None
        }
    }

    /// Return the INI string value.
    pub fn value(&self) -> (r: &'static str)
        ensures
            r@ == self.text(),
    {
        match self {
            KwinBorderSize::NoBorder => "None",
            KwinBorderSize::NoSides => "NoSides",
            KwinBorderSize::Tiny => "Tiny",
            KwinBorderSize::Normal => "Normal",
            KwinBorderSize::Large => "Large",
            KwinBorderSize::VeryLarge => "VeryLarge",
            KwinBorderSize::Huge => "Huge",
            KwinBorderSize::VeryHuge => "VeryHuge",
            KwinBorderSize::Oversized => "Oversized",
        }
    }

    /// Return all variants.
    pub fn all() -> (r: Vec<Self>)
        ensures
            r@ == Self::variants(),
    {
        let mut r: Vec<Self> = Vec::new();
        r.push(KwinBorderSize::NoBorder);
        r.push(KwinBorderSize::NoSides);
        r.push(KwinBorderSize::Tiny);
        r.push(KwinBorderSize::Normal);
        r.push(KwinBorderSize::Large);
        r.push(KwinBorderSize::VeryLarge);
        r.push(KwinBorderSize::Huge);
        r.push(KwinBorderSize::VeryHuge);
        r.push(KwinBorderSize::Oversized);
        assert(r@ =~= Self::variants());
        r
    }

    /// Every value reads back from its INI text.
    pub proof fn lemma_text_round_trip(v: Self)
        ensures
            Self::parse(v.text()) == Some(v),
    {
        reveal_strlit("None");
        reveal_strlit("NoSides");
        reveal_strlit("Tiny");
        reveal_strlit("Normal");
        reveal_strlit("Large");
        reveal_strlit("VeryLarge");
        reveal_strlit("Huge");
        reveal_strlit("VeryHuge");
        reveal_strlit("Oversized");
        assert("None"@.len() != "NoSides"@.len());
        assert("None"@[0] != "Tiny"@[0]);
        assert("None"@.len() != "Normal"@.len());
        assert("None"@.len() != "Large"@.len());
        assert("None"@.len() != "VeryLarge"@.len());
        assert("None"@[0] != "Huge"@[0]);
        assert("None"@.len() != "VeryHuge"@.len());
        assert("None"@.len() != "Oversized"@.len());
        assert("NoSides"@.len() != "Tiny"@.len());
        assert("NoSides"@.len() != "Normal"@.len());
        assert("NoSides"@.len() != "Large"@.len());
        assert("NoSides"@.len() != "VeryLarge"@.len());
        assert("NoSides"@.len() != "Huge"@.len());
        assert("NoSides"@.len() != "VeryHuge"@.len());
        assert("NoSides"@.len() != "Oversized"@.len());
        assert("Tiny"@.len() != "Normal"@.len());
        assert("Tiny"@.len() != "Large"@.len());
        assert("Tiny"@.len() != "VeryLarge"@.len());
        assert("Tiny"@[0] != "Huge"@[0]);
        assert("Tiny"@.len() != "VeryHuge"@.len());
        assert("Tiny"@.len() != "Oversized"@.len());
        assert("Normal"@.len() != "Large"@.len());
        assert("Normal"@.len() != "VeryLarge"@.len());
        assert("Normal"@.len() != "Huge"@.len());
        assert("Normal"@.len() != "VeryHuge"@.len());
        assert("Normal"@.len() != "Oversized"@.len());
        assert("Large"@.len() != "VeryLarge"@.len());
        assert("Large"@.len() != "Huge"@.len());
        assert("Large"@.len() != "VeryHuge"@.len());
        assert("Large"@.len() != "Oversized"@.len());
        assert("VeryLarge"@.len() != "Huge"@.len());
        assert("VeryLarge"@.len() != "VeryHuge"@.len());
        assert("VeryLarge"@[0] != "Oversized"@[0]);
        assert("Huge"@.len() != "VeryHuge"@.len());
        assert("Huge"@.len() != "Oversized"@.len());
        assert("VeryHuge"@.len() != "Oversized"@.len());
    }

    /// A text that parses is the text of the value it parses to.
    pub proof fn lemma_parse_inverse(s: Seq<char>)
        ensures
            Self::parse(s) matches Some(v) ==> v.text() == s,
    {
    }
}

/// Thickness of button icons.
#[derive(Clone, Copy, Debug, PartialEq, Eq, Hash, Structural)]
pub enum BoldButtonIcons {
    Fine,
    Bold,
}

impl BoldButtonIcons {
    /// The name of a value (the variant's own name; a `None` value of Klassy's is named `None`).
    pub open spec fn name(self) -> Seq<char> {
        match self {
            BoldButtonIcons::Fine => "Fine"@,
            BoldButtonIcons::Bold => "Bold"@,
        }
    }

    /// Each value's INI text is `BoldIcons` followed by the value's name.
    pub proof fn lemma_text_is_named(self)
        ensures
            self.text() == "BoldIcons"@ + self.name(),
    {
        match self {
            BoldButtonIcons::Fine => { reveal_strlit("BoldIcons"); reveal_strlit("Fine"); reveal_strlit("BoldIconsFine"); assert("BoldIconsFine"@ =~= "BoldIcons"@ + "Fine"@); },
            BoldButtonIcons::Bold => { reveal_strlit("BoldIcons"); reveal_strlit("Bold"); reveal_strlit("BoldIconsBold"); assert("BoldIconsBold"@ =~= "BoldIcons"@ + "Bold"@); },
        }
    }

    /// The INI text of a value.
    pub open spec fn text(self) -> Seq<char> {
        match self {
            BoldButtonIcons::Fine => "BoldIconsFine"@,
            BoldButtonIcons::Bold => "BoldIconsBold"@,
        }
    }

    /// The value whose INI text is `s`, if any.
    pub open spec fn parse(s: Seq<char>) -> Option<Self> {
        if s == "BoldIconsFine"@ {
            Some(BoldButtonIcons::Fine)
        } else if s == "BoldIconsBold"@ {
            Some(BoldButtonIcons::Bold)
        } else {
            None
        }
    }

    /// The values in declaration order.
    pub open spec fn variants() -> Seq<Self> {
        seq![
            BoldButtonIcons::Fine,
            BoldButtonIcons::Bold,
        ]
    }

    /// Parse from the INI string value.
    pub fn from_value(s: &str) -> (r: Option<Self>)
        ensures
            r == Self::parse(s@),
    {
        if str_eq(s, "BoldIconsFine") {
            Some(BoldButtonIcons::Fine)
        } else if str_eq(s, "BoldIconsBold") {
            Some(BoldButtonIcons::Bold)
        } else {
            None
        }
    }

    /// Return the INI string value.
    pub fn value(&self) -> (r: &'static str)
        ensures
            r@ == self.text(),
    {
        match self {
            BoldButtonIcons::Fine => "BoldIconsFine",
            BoldButtonIcons::Bold => "BoldIconsBold",
        }
    }

    /// Return all variants.
    pub fn all() -> (r: Vec<Self>)
        ensures
            r@ == Self::variants(),
    {
        let mut r: Vec<Self> = Vec::new();
        r.push(BoldButtonIcons::Fine);
        r.push(BoldButtonIcons::Bold);
        assert(r@ =~= Self::variants());
        r
    }

    /// Every value reads back from its INI text.
    pub proof fn lemma_text_round_trip(v: Self)
        ensures
            Self::parse(v.text()) == Some(v),
    {
        reveal_strlit("BoldIconsFine");
        reveal_strlit("BoldIconsBold");
        assert("BoldIconsFine"@[9] != "BoldIconsBold"@[9]);
    }

    /// A text that parses is the text of the value it parses to.
    pub proof fn lemma_parse_inverse(s: Seq<char>)
        ensures
            Self::parse(s) matches Some(v) ==> v.text() == s,
    {
    }
}

/// Corner radius mode for buttons.
#[derive(Clone, Copy, Debug, PartialEq, Eq, Hash, Structural)]
pub enum ButtonCornerRadius {
    SameAsWindow,
    Custom,
}

impl ButtonCornerRadius {
    /// The name of a value (the variant's own name; a `None` value of Klassy's is named `None`).
    pub open spec fn name(self) -> Seq<char> {
        match self {
            ButtonCornerRadius::SameAsWindow => "SameAsWindow"@,
            ButtonCornerRadius::Custom => "Custom"@,
        }
    }

    /// Each value's INI text is the value's name.
    pub proof fn lemma_text_is_named(self)
        ensures
            self.text() == self.name(),
    {
        match self {
            ButtonCornerRadius::SameAsWindow => {},
            ButtonCornerRadius::Custom => {},
        }
    }

    /// The INI text of a value.
    pub open spec fn text(self) -> Seq<char> {
        match self {
            ButtonCornerRadius::SameAsWindow => "SameAsWindow"@,
            ButtonCornerRadius::Custom => "Custom"@,
        }
    }

    /// The value whose INI text is `s`, if any.
    pub open spec fn parse(s: Seq<char>) -> Option<Self> {
        if s == "SameAsWindow"@ {
            Some(ButtonCornerRadius::SameAsWindow)
        } else if s == "Custom"@ {
            Some(ButtonCornerRadius::Custom)
        } else {
            None
        }
    }

    /// The values in declaration order.
    pub open spec fn variants() -> Seq<Self> {
        seq![
            ButtonCornerRadius::SameAsWindow,
            ButtonCornerRadius::Custom,
        ]
    }

    /// Parse from the INI string value.
    pub fn from_value(s: &str) -> (r: Option<Self>)
        ensures
            r == Self::parse(s@),
    {
        if str_eq(s, "SameAsWindow") {
            Some(ButtonCornerRadius::SameAsWindow)
        } else if str_eq(s, "Custom") {
            Some(ButtonCornerRadius::Custom)
        } else {
            None
        }
    }

    /// Return the INI string value.
    pub fn value(&self) -> (r: &'static str)
        ensures
            r@ == self.text(),
    {
        match self {
            ButtonCornerRadius::SameAsWindow => "SameAsWindow",
            ButtonCornerRadius::Custom => "Custom",
        }
    }

    /// Return all variants.
    pub fn all() -> (r: Vec<Self>)
        ensures
            r@ == Self::variants(),
    {
        let mut r: Vec<Self> = Vec::new();
        r.push(ButtonCornerRadius::SameAsWindow);
        r.push(ButtonCornerRadius::Custom);
        assert(r@ =~= Self::variants());
        r
    }

    /// Every value reads back from its INI text.
    pub proof fn lemma_text_round_trip(v: Self)
        ensures
            Self::parse(v.text()) == Some(v),
    {
        reveal_strlit("SameAsWindow");
        reveal_strlit("Custom");
        assert("SameAsWindow"@.len() != "Custom"@.len());
    }

    /// A text that parses is the text of the value it parses to.
    pub proof fn lemma_parse_inverse(s: Seq<char>)
        ensures
            Self::parse(s) matches Some(v) ==> v.text() == s,
    {
    }
}

/// Action to take on poor icon contrast.
#[derive(Clone, Copy, Debug, PartialEq, Eq, Hash, Structural)]
pub enum OnPoorIconContrast {
    TitleBarBackground,
    TitleBarText,
    No,
}

impl OnPoorIconContrast {
    /// The name of a value (the variant's own name; a `None` value of Klassy's is named `None`).
    pub open spec fn name(self) -> Seq<char> {
        match self {
            OnPoorIconContrast::TitleBarBackground => "TitleBarBackground"@,
            OnPoorIconContrast::TitleBarText => "TitleBarText"@,
            OnPoorIconContrast::No => "No"@,
        }
    }

    /// Each value's INI text is the value's name.
    pub proof fn lemma_text_is_named(self)
        ensures
            self.text() == self.name(),
    {
        match self {
            OnPoorIconContrast::TitleBarBackground => {},
            OnPoorIconContrast::TitleBarText => {},
            OnPoorIconContrast::No => {},
        }
    }

    /// The INI text of a value.
    pub open spec fn text(self) -> Seq<char> {
        match self {
            OnPoorIconContrast::TitleBarBackground => "TitleBarBackground"@,
            OnPoorIconContrast::TitleBarText => "TitleBarText"@,
            OnPoorIconContrast::No => "No"@,
        }
    }

    /// The value whose INI text is `s`, if any.
    pub open spec fn parse(s: Seq<char>) -> Option<Self> {
        if s == "TitleBarBackground"@ {
            Some(OnPoorIconContrast::TitleBarBackground)
        } else if s == "TitleBarText"@ {
            Some(OnPoorIconContrast::TitleBarText)
        } else if s == "No"@ {
            Some(OnPoorIconContrast::No)
        } else {
            None
        }
    }

    /// The values in declaration order.
    pub open spec fn variants() -> Seq<Self> {
        seq![
            OnPoorIconContrast::TitleBarBackground,
            OnPoorIconContrast::TitleBarText,
            OnPoorIconContrast::No,
        ]
    }

    /// Parse from the INI string value.
    pub fn from_value(s: &str) -> (r: Option<Self>)
        ensures
            r == Self::parse(s@),
    {
        if str_eq(s, "TitleBarBackground") {
            Some(OnPoorIconContrast::TitleBarBackground)
        } else if str_eq(s, "TitleBarText") {
            Some(OnPoorIconContrast::TitleBarText)
        } else if str_eq(s, "No") {
            Some(OnPoorIconContrast::No)
        } else {
            None
        }
    }

    /// Return the INI string value.
    pub fn value(&self) -> (r: &'static str)
        ensures
            r@ == self.text(),
    {
        match self {
            OnPoorIconContrast::TitleBarBackground => "TitleBarBackground",
            OnPoorIconContrast::TitleBarText => "TitleBarText",
            OnPoorIconContrast::No => "No",
        }
    }

    /// Return all variants.
    pub fn all() -> (r: Vec<Self>)
        ensures
            r@ == Self::variants(),
    {
        let mut r: Vec<Self> = Vec::new();
        r.push(OnPoorIconContrast::TitleBarBackground);
        r.push(OnPoorIconContrast::TitleBarText);
        r.push(OnPoorIconContrast::No);
        assert(r@ =~= Self::variants());
        r
    }

    /// Every value reads back from its INI text.
    pub proof fn lemma_text_round_trip(v: Self)
        ensures
            Self::parse(v.text()) == Some(v),
    {
        reveal_strlit("TitleBarBackground");
        reveal_strlit("TitleBarText");
        reveal_strlit("No");
        assert("TitleBarBackground"@.len() != "TitleBarText"@.len());
        assert("TitleBarBackground"@.len() != "No"@.len());
        assert("TitleBarText"@.len() != "No"@.len());
    }

    /// A text that parses is the text of the value it parses to.
    pub proof fn lemma_parse_inverse(s: Seq<char>)
        ensures
            Self::parse(s) matches Some(v) ==> v.text() == s,
    {
    }
}

/// Icon color scheme for window buttons.
#[derive(Clone, Copy, Debug, PartialEq, Eq, Hash, Structural)]
pub enum ButtonIconColors {
    TitleBarText,
    Custom,
    WhiteWhenHoverPress,
}

impl ButtonIconColors {
    /// The name of a value (the variant's own name; a `None` value of Klassy's is named `None`).
    pub open spec fn name(self) -> Seq<char> {
        match self {
            ButtonIconColors::TitleBarText => "TitleBarText"@,
            ButtonIconColors::Custom => "Custom"@,
            ButtonIconColors::WhiteWhenHoverPress => "WhiteWhenHoverPress"@,
        }
    }

    /// Each value's INI text is the value's name.
    pub proof fn lemma_text_is_named(self)
        ensures
            self.text() == self.name(),
    {
        match self {
            ButtonIconColors::TitleBarText => {},
            ButtonIconColors::Custom => {},
            ButtonIconColors::WhiteWhenHoverPress => {},
        }
    }

    /// The INI text of a value.
    pub open spec fn text(self) -> Seq<char> {
        match self {
            ButtonIconColors::TitleBarText => "TitleBarText"@,
            ButtonIconColors::Custom => "Custom"@,
            ButtonIconColors::WhiteWhenHoverPress => "WhiteWhenHoverPress"@,
        }
    }

    /// The value whose INI text is `s`, if any.
    pub open spec fn parse(s: Seq<char>) -> Option<Self> {
        if s == "TitleBarText"@ {
            Some(ButtonIconColors::TitleBarText)
        } else if s == "Custom"@ {
            Some(ButtonIconColors::Custom)
        } else if s == "WhiteWhenHoverPress"@ {
            Some(ButtonIconColors::WhiteWhenHoverPress)
        } else {
            None
        }
    }

    /// The values in declaration order.
    pub open spec fn variants() -> Seq<Self> {
        seq![
            ButtonIconColors::TitleBarText,
            ButtonIconColors::Custom,
            ButtonIconColors::WhiteWhenHoverPress,
        ]
    }

    /// Parse from the INI string value.
    pub fn from_value(s: &str) -> (r: Option<Self>)
        ensures
            r == Self::parse(s@),
    {
        if str_eq(s, "TitleBarText") {
            Some(ButtonIconColors::TitleBarText)
        } else if str_eq(s, "Custom") {
            Some(ButtonIconColors::Custom)
        } else if str_eq(s, "WhiteWhenHoverPress") {
            Some(ButtonIconColors::WhiteWhenHoverPress)
        } else {
            None
        }
    }

    /// Return the INI string value.
    pub fn value(&self) -> (r: &'static str)
        ensures
            r@ == self.text(),
    {
        match self {
            ButtonIconColors::TitleBarText => "TitleBarText",
            ButtonIconColors::Custom => "Custom",
            ButtonIconColors::WhiteWhenHoverPress => "WhiteWhenHoverPress",
        }
    }

    /// Return all variants.
    pub fn all() -> (r: Vec<Self>)
        ensures
            r@ == Self::variants(),
    {
        let mut r: Vec<Self> = Vec::new();
        r.push(ButtonIconColors::TitleBarText);
        r.push(ButtonIconColors::Custom);
        r.push(ButtonIconColors::WhiteWhenHoverPress);
        assert(r@ =~= Self::variants());
        r
    }

    /// Every value reads back from its INI text.
    pub proof fn lemma_text_round_trip(v: Self)
        ensures
            Self::parse(v.text()) == Some(v),
    {
        reveal_strlit("TitleBarText");
        reveal_strlit("Custom");
        reveal_strlit("WhiteWhenHoverPress");
        assert("TitleBarText"@.len() != "Custom"@.len());
        assert("TitleBarText"@.len() != "WhiteWhenHoverPress"@.len());
        assert("Custom"@.len() != "WhiteWhenHoverPress"@.len());
    }

    /// A text that parses is the text of the value it parses to.
    pub proof fn lemma_parse_inverse(s: Seq<char>)
        ensures
            Self::parse(s) matches Some(v) ==> v.text() == s,
    {
    }
}

/// Appearance of checked (toggled) buttons.
#[derive(Clone, Copy, Debug, PartialEq, Eq, Hash, Structural)]
pub enum ButtonStateChecked {
    Normal,
    Hover,
}

impl ButtonStateChecked {
    /// The name of a value (the variant's own name; a `None` value of Klassy's is named `None`).
    pub open spec fn name(self) -> Seq<char> {
        match self {
            ButtonStateChecked::Normal => "Normal"@,
            ButtonStateChecked::Hover => "Hover"@,
        }
    }

    /// Each value's INI text is the value's name.
    pub proof fn lemma_text_is_named(self)
        ensures
            self.text() == self.name(),
    {
        match self {
            ButtonStateChecked::Normal => {},
            ButtonStateChecked::Hover => {},
        }
    }

    /// The INI text of a value.
    pub open spec fn text(self) -> Seq<char> {
        match self {
            ButtonStateChecked::Normal => "Normal"@,
            ButtonStateChecked::Hover => "Hover"@,
        }
    }

    /// The value whose INI text is `s`, if any.
    pub open spec fn parse(s: Seq<char>) -> Option<Self> {
        if s == "Normal"@ {
            Some(ButtonStateChecked::Normal)
        } else if s == "Hover"@ {
            Some(ButtonStateChecked::Hover)
        } else {
            None
        }
    }

    /// The values in declaration order.
    pub open spec fn variants() -> Seq<Self> {
        seq![
            ButtonStateChecked::Normal,
            ButtonStateChecked::Hover,
        ]
    }

    /// Parse from the INI string value.
    pub fn from_value(s: &str) -> (r: Option<Self>)
        ensures
            r == Self::parse(s@),
    {
        if str_eq(s, "Normal") {
            Some(ButtonStateChecked::Normal)
        } else if str_eq(s, "Hover") {
            Some(ButtonStateChecked::Hover)
        } else {
            None
        }
    }

    /// Return the INI string value.
    pub fn value(&self) -> (r: &'static str)
        ensures
            r@ == self.text(),
    {
        match self {
            ButtonStateChecked::Normal => "Normal",
            ButtonStateChecked::Hover => "Hover",
        }
    }

    /// Return all variants.
    pub fn all() -> (r: Vec<Self>)
        ensures
            r@ == Self::variants(),
    {
        let mut r: Vec<Self> = Vec::new();
        r.push(ButtonStateChecked::Normal);
        r.push(ButtonStateChecked::Hover);
        assert(r@ =~= Self::variants());
        r
    }

    /// Every value reads back from its INI text.
    pub proof fn lemma_text_round_trip(v: Self)
        ensures
            Self::parse(v.text()) == Some(v),
    {
        reveal_strlit("Normal");
        reveal_strlit("Hover");
        assert("Normal"@.len() != "Hover"@.len());
    }

    /// A text that parses is the text of the value it parses to.
    pub proof fn lemma_parse_inverse(s: Seq<char>)
        ensures
            Self::parse(s) matches Some(v) ==> v.text() == s,
    {
    }
}

/// Vary color per button type.
#[derive(Clone, Copy, Debug, PartialEq, Eq, Hash, Structural)]
pub enum VaryColor {
    No,
    Light,
    Dark,
    MoreTitleBar,
    LessTitleBar,
}

impl VaryColor {
    /// The name of a value (the variant's own name; a `None` value of Klassy's is named `None`).
    pub open spec fn name(self) -> Seq<char> {
        match self {
            VaryColor::No => "No"@,
            VaryColor::Light => "Light"@,
            VaryColor::Dark => "Dark"@,
            VaryColor::MoreTitleBar => "MoreTitleBar"@,
            VaryColor::LessTitleBar => "LessTitleBar"@,
        }
    }

    /// Each value's INI text is the value's name.
    pub proof fn lemma_text_is_named(self)
        ensures
            self.text() == self.name(),
    {
        match self {
            VaryColor::No => {},
            VaryColor::Light => {},
            VaryColor::Dark => {},
            VaryColor::MoreTitleBar => {},
            VaryColor::LessTitleBar => {},
        }
    }

    /// The INI text of a value.
    pub open spec fn text(self) -> Seq<char> {
        match self {
            VaryColor::No => "No"@,
            VaryColor::Light => "Light"@,
            VaryColor::Dark => "Dark"@,
            VaryColor::MoreTitleBar => "MoreTitleBar"@,
            VaryColor::LessTitleBar => "LessTitleBar"@,
        }
    }

    /// The value whose INI text is `s`, if any.
    pub open spec fn parse(s: Seq<char>) -> Option<Self> {
        if s == "No"@ {
            Some(VaryColor::No)
        } else if s == "Light"@ {
            Some(VaryColor::Light)
        } else if s == "Dark"@ {
            Some(VaryColor::Dark)
        } else if s == "MoreTitleBar"@ {
            Some(VaryColor::MoreTitleBar)
        } else if s == "LessTitleBar"@ {
            Some(VaryColor::LessTitleBar)
        } else {
            None
        }
    }

    /// The values in declaration order.
    pub open spec fn variants() -> Seq<Self> {
        seq![
            VaryColor::No,
            VaryColor::Light,
            VaryColor::Dark,
            VaryColor::MoreTitleBar,
            VaryColor::LessTitleBar,
        ]
    }

    /// Parse from the INI string value.
    pub fn from_value(s: &str) -> (r: Option<Self>)
        ensures
            r == Self::parse(s@),
    {
        if str_eq(s, "No") {
            Some(VaryColor::No)
        } else if str_eq(s, "Light") {
            Some(VaryColor::Light)
        } else if str_eq(s, "Dark") {
            Some(VaryColor::Dark)
        } else if str_eq(s, "MoreTitleBar") {
            Some(VaryColor::MoreTitleBar)
        } else if str_eq(s, "LessTitleBar") {
            Some(VaryColor::LessTitleBar)
        } else {
            None
        }
    }

    /// Return the INI string value.
    pub fn value(&self) -> (r: &'static str)
        ensures
            r@ == self.text(),
    {
        match self {
            VaryColor::No => "No",
            VaryColor::Light => "Light",
            VaryColor::Dark => "Dark",
            VaryColor::MoreTitleBar => "MoreTitleBar",
            VaryColor::LessTitleBar => "LessTitleBar",
        }
    }

    /// Return all variants.
    pub fn all() -> (r: Vec<Self>)
        ensures
            r@ == Self::variants(),
    {
        let mut r: Vec<Self> = Vec::new();
        r.push(VaryColor::No);
        r.push(VaryColor::Light);
        r.push(VaryColor::Dark);
        r.push(VaryColor::MoreTitleBar);
        r.push(VaryColor::LessTitleBar);
        assert(r@ =~= Self::variants());
        r
    }

    /// Every value reads back from its INI text.
    pub proof fn lemma_text_round_trip(v: Self)
        ensures
            Self::parse(v.text()) == Some(v),
    {
        reveal_strlit("No");
        reveal_strlit("Light");
        reveal_strlit("Dark");
        reveal_strlit("MoreTitleBar");
        reveal_strlit("LessTitleBar");
        assert("No"@.len() != "Light"@.len());
        assert("No"@.len() != "Dark"@.len());
        assert("No"@.len() != "MoreTitleBar"@.len());
        assert("No"@.len() != "LessTitleBar"@.len());
        assert("Light"@.len() != "Dark"@.len());
        assert("Light"@.len() != "MoreTitleBar"@.len());
        assert("Light"@.len() != "LessTitleBar"@.len());
        assert("Dark"@.len() != "MoreTitleBar"@.len());
        assert("Dark"@.len() != "LessTitleBar"@.len());
        assert("MoreTitleBar"@[0] != "LessTitleBar"@[0]);
    }

    /// A text that parses is the text of the value it parses to.
    pub proof fn lemma_parse_inverse(s: Seq<char>)
        ensures
            Self::parse(s) matches Some(v) ==> v.text() == s,
    {
    }
}

} // verus!

