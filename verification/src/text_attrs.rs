//! Attributes that paragraphs and characters share with their styles.
use crate::number::Num;
use crate::text::same_text;
use crate::util::{copy_text, either, first_of, join};
use crate::xml::{Tag, TagView};
use vstd::prelude::*;

verus! {

/// How the lines of a paragraph are set.
#[derive(Clone, Copy, Debug, PartialEq, Eq, Structural)]
pub enum Justification {
    LeftAlign,
    CenterAlign,
    RightAlign,
    LeftJustified,
    CenterJustified,
    RightJustified,
    FullyJustified,
    ToBindingSide,
    AwayFromBindingSide,
}

impl DeepView for Justification {
    type V = Justification;

    open spec fn deep_view(&self) -> Justification {
        *self
    }
}

impl Justification {
    /// What the value `s` names, where it is one of those known.
    pub open spec fn named(s: Seq<char>) -> Option<Justification> {
        if s == "LeftAlign"@ {
            Some(Justification::LeftAlign)
        } else if s == "CenterAlign"@ {
            Some(Justification::CenterAlign)
        } else if s == "RightAlign"@ {
            Some(Justification::RightAlign)
        } else if s == "LeftJustified"@ {
            Some(Justification::LeftJustified)
        } else if s == "CenterJustified"@ {
            Some(Justification::CenterJustified)
        } else if s == "RightJustified"@ {
            Some(Justification::RightJustified)
        } else if s == "FullyJustified"@ {
            Some(Justification::FullyJustified)
        } else if s == "ToBindingSide"@ {
            Some(Justification::ToBindingSide)
        } else if s == "AwayFromBindingSide"@ {
            Some(Justification::AwayFromBindingSide)
        } else {
            None
        }
    }

    /// Reads the value `s`.
    pub fn from_idml(s: &str) -> (r: Option<Justification>)
        ensures
            r == Justification::named(s@),
    {
        if same_text(s, "LeftAlign") {
            Some(Justification::LeftAlign)
        } else if same_text(s, "CenterAlign") {
            Some(Justification::CenterAlign)
        } else if same_text(s, "RightAlign") {
            Some(Justification::RightAlign)
        } else if same_text(s, "LeftJustified") {
            Some(Justification::LeftJustified)
        } else if same_text(s, "CenterJustified") {
            Some(Justification::CenterJustified)
        } else if same_text(s, "RightJustified") {
            Some(Justification::RightJustified)
        } else if same_text(s, "FullyJustified") {
            Some(Justification::FullyJustified)
        } else if same_text(s, "ToBindingSide") {
            Some(Justification::ToBindingSide)
        } else if same_text(s, "AwayFromBindingSide") {
            Some(Justification::AwayFromBindingSide)
        } else {
            None
        }
    }
}

impl Justification {
    /// The word that names it.
    pub open spec fn word(self) -> Seq<char> {
        match self {
            Justification::LeftAlign => "LeftAlign"@,
            Justification::CenterAlign => "CenterAlign"@,
            Justification::RightAlign => "RightAlign"@,
            Justification::LeftJustified => "LeftJustified"@,
            Justification::CenterJustified => "CenterJustified"@,
            Justification::RightJustified => "RightJustified"@,
            Justification::FullyJustified => "FullyJustified"@,
            Justification::ToBindingSide => "ToBindingSide"@,
            Justification::AwayFromBindingSide => "AwayFromBindingSide"@,
        }
    }

    /// The word that names it.
    pub fn as_idml(&self) -> (r: &'static str)
        ensures
            r@ == self.word(),
    {
        match self {
            Justification::LeftAlign => "LeftAlign",
            Justification::CenterAlign => "CenterAlign",
            Justification::RightAlign => "RightAlign",
            Justification::LeftJustified => "LeftJustified",
            Justification::CenterJustified => "CenterJustified",
            Justification::RightJustified => "RightJustified",
            Justification::FullyJustified => "FullyJustified",
            Justification::ToBindingSide => "ToBindingSide",
            Justification::AwayFromBindingSide => "AwayFromBindingSide",
        }
    }
}

/// A justification is read back from the word that names it.
pub proof fn law_justification_round_trip(a: Justification)
    ensures
        Justification::named(a.word()) == Some(a),
{
    reveal_strlit("LeftAlign");
    reveal_strlit("CenterAlign");
    reveal_strlit("RightAlign");
    reveal_strlit("LeftJustified");
    reveal_strlit("CenterJustified");
    reveal_strlit("RightJustified");
    reveal_strlit("FullyJustified");
    reveal_strlit("ToBindingSide");
    reveal_strlit("AwayFromBindingSide");
    assert("LeftAlign"@.len() == 9 && "LeftAlign"@[0] == 'L' && "LeftAlign"@[1] == 'e');
    assert("CenterAlign"@.len() == 11 && "CenterAlign"@[0] == 'C' && "CenterAlign"@[1] == 'e');
    assert("RightAlign"@.len() == 10 && "RightAlign"@[0] == 'R' && "RightAlign"@[1] == 'i');
    assert("LeftJustified"@.len() == 13 && "LeftJustified"@[0] == 'L' && "LeftJustified"@[1] == 'e');
    assert("CenterJustified"@.len() == 15 && "CenterJustified"@[0] == 'C' && "CenterJustified"@[1] == 'e');
    assert("RightJustified"@.len() == 14 && "RightJustified"@[0] == 'R' && "RightJustified"@[1] == 'i');
    assert("FullyJustified"@.len() == 14 && "FullyJustified"@[0] == 'F' && "FullyJustified"@[1] == 'u');
    assert("ToBindingSide"@.len() == 13 && "ToBindingSide"@[0] == 'T' && "ToBindingSide"@[1] == 'o');
    assert("AwayFromBindingSide"@.len() == 19 && "AwayFromBindingSide"@[0] == 'A' && "AwayFromBindingSide"@[1] == 'w');
}

/// A tab stop.
#[derive(Debug, PartialEq)]
pub struct TabStop {
    pub position: Num,
    pub alignment: Option<String>,
    pub alignment_character: Option<String>,
    pub leader: Option<String>,
}

/// What a [`TabStop`] holds.
#[verifier::ext_equal]
pub struct TabStopView {
    pub position: Num,
    pub alignment: Option<Seq<char>>,
    pub alignment_character: Option<Seq<char>>,
    pub leader: Option<Seq<char>>,
}

impl DeepView for TabStop {
    type V = TabStopView;

    open spec fn deep_view(&self) -> TabStopView {
        TabStopView {
            position: self.position,
            alignment: self.alignment.deep_view(),
            alignment_character: self.alignment_character.deep_view(),
            leader: self.leader.deep_view(),
        }
    }
}

/// The stop that a `TabStop` tag states, where it says where it stands.
pub open spec fn tab_stop_of(tag: TagView) -> Option<TabStopView> {
    match tag.num("Position"@) {
        None => None,
        Some(position) => Some(TabStopView {
            position: position,
            alignment: tag.text("Alignment"@),
            alignment_character: tag.text("AlignmentCharacter"@),
            leader: tag.text("Leader"@),
        }),
    }
}

/// Reads it from a tag.
pub fn read_tab_stop(tag: &Tag) -> (r: Option<TabStop>)
    ensures
        r.deep_view() == tab_stop_of(tag@),
{
    match tag.num("Position") {
        None => None,
        Some(position) => Some(TabStop {
            position: position,
            alignment: tag.text("Alignment"),
            alignment_character: tag.text("AlignmentCharacter"),
            leader: tag.text("Leader"),
        }),
    }
}

/// The OpenType features that a text states; `None` where it leaves one to its
/// style.
#[derive(Debug, PartialEq)]
pub struct OtfFeatures {
    pub fraction: Option<bool>,
    pub ordinal: Option<bool>,
    pub swash: Option<bool>,
    pub discretionary_ligatures: Option<bool>,
    pub slashed_zero: Option<bool>,
    pub titling: Option<bool>,
    pub contextual_alternates: Option<bool>,
    pub figure_style: Option<String>,
    pub stylistic_sets: Option<i32>,
}

/// What a [`OtfFeatures`] holds.
#[verifier::ext_equal]
pub struct OtfFeaturesView {
    pub fraction: Option<bool>,
    pub ordinal: Option<bool>,
    pub swash: Option<bool>,
    pub discretionary_ligatures: Option<bool>,
    pub slashed_zero: Option<bool>,
    pub titling: Option<bool>,
    pub contextual_alternates: Option<bool>,
    pub figure_style: Option<Seq<char>>,
    pub stylistic_sets: Option<i32>,
}

impl DeepView for OtfFeatures {
    type V = OtfFeaturesView;

    open spec fn deep_view(&self) -> OtfFeaturesView {
        OtfFeaturesView {
            fraction: self.fraction,
            ordinal: self.ordinal,
            swash: self.swash,
            discretionary_ligatures: self.discretionary_ligatures,
            slashed_zero: self.slashed_zero,
            titling: self.titling,
            contextual_alternates: self.contextual_alternates,
            figure_style: self.figure_style.deep_view(),
            stylistic_sets: self.stylistic_sets,
        }
    }
}

/// The OpenType features that a tag states.
pub open spec fn otf_features_of(tag: TagView) -> OtfFeaturesView {
    OtfFeaturesView {
        fraction: tag.flag("OTFFraction"@),
        ordinal: tag.flag("OTFOrdinal"@),
        swash: tag.flag("OTFSwash"@),
        discretionary_ligatures: tag.flag("OTFDiscretionaryLigature"@),
        slashed_zero: tag.flag("OTFSlashedZero"@),
        titling: tag.flag("OTFTitling"@),
        contextual_alternates: tag.flag("OTFContextualAlternate"@),
        figure_style: tag.text("OTFFigureStyle"@),
        stylistic_sets: tag.integer("OTFStylisticSets"@),
    }
}

/// Reads it from a tag.
pub fn read_otf_features(tag: &Tag) -> (r: OtfFeatures)
    ensures
        r.deep_view() == otf_features_of(tag@),
{
    OtfFeatures {
        fraction: tag.flag("OTFFraction"),
        ordinal: tag.flag("OTFOrdinal"),
        swash: tag.flag("OTFSwash"),
        discretionary_ligatures: tag.flag("OTFDiscretionaryLigature"),
        slashed_zero: tag.flag("OTFSlashedZero"),
        titling: tag.flag("OTFTitling"),
        contextual_alternates: tag.flag("OTFContextualAlternate"),
        figure_style: tag.text("OTFFigureStyle"),
        stylistic_sets: tag.integer("OTFStylisticSets"),
    }
}

/// No features stated.
pub open spec fn no_otf_features() -> OtfFeaturesView {
    OtfFeaturesView {
        fraction: None,
        ordinal: None,
        swash: None,
        discretionary_ligatures: None,
        slashed_zero: None,
        titling: None,
        contextual_alternates: None,
        figure_style: None,
        stylistic_sets: None,
    }
}

impl Default for OtfFeatures {
    fn default() -> (r: OtfFeatures)
        ensures
            r.deep_view() == no_otf_features(),
    {
        OtfFeatures {
            fraction: None,
            ordinal: None,
            swash: None,
            discretionary_ligatures: None,
            slashed_zero: None,
            titling: None,
            contextual_alternates: None,
            figure_style: None,
            stylistic_sets: None,
        }
    }
}

/// `top` with what it leaves open taken from `below`.
pub open spec fn otf_merged(top: OtfFeaturesView, below: OtfFeaturesView) -> OtfFeaturesView {
    OtfFeaturesView {
        fraction: either(top.fraction, below.fraction),
        ordinal: either(top.ordinal, below.ordinal),
        swash: either(top.swash, below.swash),
        discretionary_ligatures: either(top.discretionary_ligatures, below.discretionary_ligatures),
        slashed_zero: either(top.slashed_zero, below.slashed_zero),
        titling: either(top.titling, below.titling),
        contextual_alternates: either(top.contextual_alternates, below.contextual_alternates),
        figure_style: either(top.figure_style, below.figure_style),
        stylistic_sets: either(top.stylistic_sets, below.stylistic_sets),
    }
}

impl OtfFeatures {
    /// Takes what is left open from `below`.
    pub fn merge_below(&mut self, below: &OtfFeatures)
        ensures
            final(self).deep_view() == otf_merged(old(self).deep_view(), below.deep_view()),
    {
        self.fraction = first_of(self.fraction, below.fraction);
        self.ordinal = first_of(self.ordinal, below.ordinal);
        self.swash = first_of(self.swash, below.swash);
        self.discretionary_ligatures = first_of(self.discretionary_ligatures, below.discretionary_ligatures);
        self.slashed_zero = first_of(self.slashed_zero, below.slashed_zero);
        self.titling = first_of(self.titling, below.titling);
        self.contextual_alternates = first_of(self.contextual_alternates, below.contextual_alternates);
        if self.figure_style.is_none() {
            self.figure_style = copy_text(&below.figure_style);
        }
        self.stylistic_sets = first_of(self.stylistic_sets, below.stylistic_sets);
    }

    /// A second copy.
    pub fn copy(&self) -> (r: OtfFeatures)
        ensures
            r.deep_view() == self.deep_view(),
    {
        OtfFeatures {
            fraction: self.fraction,
            ordinal: self.ordinal,
            swash: self.swash,
            discretionary_ligatures: self.discretionary_ligatures,
            slashed_zero: self.slashed_zero,
            titling: self.titling,
            contextual_alternates: self.contextual_alternates,
            figure_style: copy_text(&self.figure_style),
            stylistic_sets: self.stylistic_sets,
        }
    }
}

/// The rule above or below a paragraph.
#[derive(Debug, PartialEq)]
pub struct ParagraphRule {
    pub on: Option<bool>,
    pub color: Option<String>,
    pub tint: Option<Num>,
    pub weight: Option<Num>,
    pub offset: Option<Num>,
    pub left_indent: Option<Num>,
    pub right_indent: Option<Num>,
    pub width: Option<String>,
}

/// What a [`ParagraphRule`] holds.
#[verifier::ext_equal]
pub struct ParagraphRuleView {
    pub on: Option<bool>,
    pub color: Option<Seq<char>>,
    pub tint: Option<Num>,
    pub weight: Option<Num>,
    pub offset: Option<Num>,
    pub left_indent: Option<Num>,
    pub right_indent: Option<Num>,
    pub width: Option<Seq<char>>,
}

impl DeepView for ParagraphRule {
    type V = ParagraphRuleView;

    open spec fn deep_view(&self) -> ParagraphRuleView {
        ParagraphRuleView {
            on: self.on,
            color: self.color.deep_view(),
            tint: self.tint,
            weight: self.weight,
            offset: self.offset,
            left_indent: self.left_indent,
            right_indent: self.right_indent,
            width: self.width.deep_view(),
        }
    }
}

/// The rule that a tag states under names that start with `prefix`.
pub open spec fn paragraph_rule_of(tag: TagView, prefix: Seq<char>) -> ParagraphRuleView {
    ParagraphRuleView {
        on: tag.flag(prefix),
        color: tag.text(prefix + "Color"@),
        tint: tag.num(prefix + "Tint"@),
        weight: either(tag.num(prefix + "LineWeight"@), tag.num(prefix + "Weight"@)),
        offset: tag.num(prefix + "Offset"@),
        left_indent: tag.num(prefix + "LeftIndent"@),
        right_indent: tag.num(prefix + "RightIndent"@),
        width: tag.text(prefix + "Width"@),
    }
}

/// Reads it from a tag.
pub fn read_paragraph_rule(tag: &Tag, prefix: &str) -> (r: ParagraphRule)
    ensures
        r.deep_view() == paragraph_rule_of(tag@, prefix@),
{
    ParagraphRule {
        on: tag.flag(prefix),
        color: tag.text(join(prefix, "Color").as_str()),
        tint: tag.num(join(prefix, "Tint").as_str()),
        weight: first_of(
            tag.num(join(prefix, "LineWeight").as_str()),
            tag.num(join(prefix, "Weight").as_str()),
        ),
        offset: tag.num(join(prefix, "Offset").as_str()),
        left_indent: tag.num(join(prefix, "LeftIndent").as_str()),
        right_indent: tag.num(join(prefix, "RightIndent").as_str()),
        width: tag.text(join(prefix, "Width").as_str()),
    }
}

/// `s` where it names something; the words for nothing count as none.
pub open spec fn unless_nothing(s: Option<Seq<char>>) -> Option<Seq<char>> {
    match s {
        Some(s) if s == "Swatch/None"@ || s == "n"@ || s == ""@ => None,
        _ => s,
    }
}

/// Whether `s` ends with `suffix`.
pub open spec fn ends_with(s: Seq<char>, suffix: Seq<char>) -> bool {
    suffix.len() <= s.len() && s.skip(s.len() - suffix.len()) == suffix
}

/// Tests whether `s` ends with `suffix`.
pub fn test_ends_with(s: &str, suffix: &str) -> (r: bool)
    ensures
        r == ends_with(s@, suffix@),
{
    let a: Vec<char> = crate::text::chars_of(s);
    let b: Vec<char> = crate::text::chars_of(suffix);
    if a.len() < b.len() {
        return false;
    }
    let from: usize = a.len() - b.len();
    let tail: String = crate::text::text_between(&a, from, a.len());
    assert(a@.subrange(from as int, a@.len() as int) =~= a@.skip(from as int));
    same_text(tail.as_str(), suffix)
}

/// `s` where it names a list; the words for no list count as none.
pub open spec fn unless_no_list(s: Option<Seq<char>>) -> Option<Seq<char>> {
    match s {
        Some(s) if s == "n"@ || s == "NumberingList/n"@ || s == ""@ || ends_with(
            s,
            "[No numbering list]"@,
        ) => None,
        _ => s,
    }
}

impl TagView {
    /// The attribute `key`; the words for nothing count as none.
    pub open spec fn named(self, key: Seq<char>) -> Option<Seq<char>> {
        unless_nothing(self.text(key))
    }

    /// The numbering list that a tag applies.
    pub open spec fn numbering_list(self) -> Option<Seq<char>> {
        unless_no_list(self.text("AppliedNumberingList"@))
    }

    /// The justification that a tag states.
    pub open spec fn justification(self) -> Option<Justification> {
        match self.text("Justification"@) {
            None => None,
            Some(s) => Justification::named(s),
        }
    }
}

impl Tag {
    /// The attribute `key`; the words for nothing count as none.
    pub fn named(&self, key: &str) -> (r: Option<String>)
        ensures
            r.deep_view() == self@.named(key@),
    {
        match self.text(key) {
            None => None,
            Some(s) => if same_text(s.as_str(), "Swatch/None") || same_text(s.as_str(), "n")
                || same_text(s.as_str(), "") {
                None
            } else {
                Some(s)
            },
        }
    }

    /// The numbering list that a tag applies.
    pub fn numbering_list(&self) -> (r: Option<String>)
        ensures
            r.deep_view() == self@.numbering_list(),
    {
        match self.text("AppliedNumberingList") {
            None => None,
            Some(s) => if same_text(s.as_str(), "n") || same_text(s.as_str(), "NumberingList/n")
                || same_text(s.as_str(), "") || test_ends_with(s.as_str(), "[No numbering list]") {
                None
            } else {
                Some(s)
            },
        }
    }

    /// The justification that a tag states.
    pub fn justification(&self) -> (r: Option<Justification>)
        ensures
            r == self@.justification(),
    {
        match self.text("Justification") {
            None => None,
            Some(s) => Justification::from_idml(s.as_str()),
        }
    }
}

} // verus!
