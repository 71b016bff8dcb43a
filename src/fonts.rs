//! Font families with their fallback faces, and the named text styles.

use vstd::prelude::*;

verus! {

/// A font file the dialog loads, under the key its family lists it by.
#[derive(Clone, Copy, Debug, PartialEq, Eq, Structural)]
pub enum Face {
    SfTextHeavy,
    HelveticaHeavy,
    SfTextMedium,
    SfDisplayMedium,
}

pub open spec fn spec_face_key(f: Face) -> Seq<char> {
    match f {
        Face::SfTextHeavy => "system-text-heavy-1"@,
        Face::HelveticaHeavy => "system-text-heavy-2"@,
        Face::SfTextMedium => "system-text-medium-1"@,
        Face::SfDisplayMedium => "system-display-medium-1"@,
    }
}

pub open spec fn spec_face_path(f: Face) -> Seq<char> {
    match f {
        Face::SfTextHeavy => "/Library/Fonts/SF-Pro-Text-Heavy.otf"@,
        Face::HelveticaHeavy => "assets/HelveticaNeueHeavy.otf"@,
        Face::SfTextMedium => "/Library/Fonts/SF-Pro-Text-Medium.otf"@,
        Face::SfDisplayMedium => "/Library/Fonts/SF-Pro-Display-Medium.otf"@,
    }
}

impl Face {
    /// The key under which the font's data is registered.
    pub fn key(self) -> (r: &'static str)
        ensures
            r@ == spec_face_key(self),
    {
        match self {
            Face::SfTextHeavy => "system-text-heavy-1",
            Face::HelveticaHeavy => "system-text-heavy-2",
            Face::SfTextMedium => "system-text-medium-1",
            Face::SfDisplayMedium => "system-display-medium-1",
        }
    }

    /// Where the font file is read from.
    pub fn path(self) -> (r: &'static str)
        ensures
            r@ == spec_face_path(self),
    {
        match self {
            Face::SfTextHeavy => "/Library/Fonts/SF-Pro-Text-Heavy.otf",
            Face::HelveticaHeavy => "assets/HelveticaNeueHeavy.otf",
            Face::SfTextMedium => "/Library/Fonts/SF-Pro-Text-Medium.otf",
            Face::SfDisplayMedium => "/Library/Fonts/SF-Pro-Display-Medium.otf",
        }
    }
}

/// A font family: the toolkit's built-in proportional one, or one of the
/// dialog's own named families.
#[derive(Clone, Copy, Debug, PartialEq, Eq, Structural)]
pub enum Family {
    Proportional,
    TextHeavy,
    TextMedium,
    DisplayMedium,
}

pub open spec fn spec_family_name(f: Family) -> Option<Seq<char>> {
    match f {
        Family::Proportional => None,
        Family::TextHeavy => Some("System-Text-Heavy"@),
        Family::TextMedium => Some("System-Text-Medium"@),
        Family::DisplayMedium => Some("System-Display-Medium"@),
    }
}

/// The faces of a family in fallback order: a glyph missing from one face is
/// taken from the next.
pub open spec fn spec_family_faces(f: Family) -> Seq<Face> {
    match f {
        Family::Proportional => Seq::empty(),
        Family::TextHeavy => seq![Face::SfTextHeavy, Face::HelveticaHeavy],
        Family::TextMedium => seq![Face::SfTextMedium],
        Family::DisplayMedium => seq![Face::SfDisplayMedium],
    }
}

impl Family {
    /// The name a named family is registered under; none for the built-in one.
    pub fn name(self) -> (r: Option<&'static str>)
        ensures
            match r {
                Some(s) => spec_family_name(self) == Some(s@),
                None => spec_family_name(self) is None,
            },
    {
        match self {
            Family::Proportional => None,
            Family::TextHeavy => Some("System-Text-Heavy"),
            Family::TextMedium => Some("System-Text-Medium"),
            Family::DisplayMedium => Some("System-Display-Medium"),
        }
    }

    /// The faces the family is made of, first choice first.
    pub fn faces(self) -> (r: Vec<Face>)
        ensures
            r@ == spec_family_faces(self),
    {
        match self {
            Family::Proportional => Vec::new(),
            Family::TextHeavy => vec![Face::SfTextHeavy, Face::HelveticaHeavy],
            Family::TextMedium => vec![Face::SfTextMedium],
            Family::DisplayMedium => vec![Face::SfDisplayMedium],
        }
    }
}

pub open spec fn registered_families() -> Seq<Family> {
    seq![Family::TextHeavy, Family::TextMedium, Family::DisplayMedium]
}

/// The dialog's own families, each to be registered with its faces.
pub fn named_families() -> (r: Vec<Family>)
    ensures
        r@ == registered_families(),
{
    vec![Family::TextHeavy, Family::TextMedium, Family::DisplayMedium]
}

/// The faces whose files could be read, in their order: each face of a family
/// paired with whether its file was read.
pub open spec fn kept_faces(faces: Seq<(Face, bool)>) -> Seq<Face>
    decreases faces.len(),
{
    if faces.len() == 0 {
        Seq::empty()
    } else {
        let rest = kept_faces(faces.drop_last());
        if faces.last().1 {
            rest.push(faces.last().0)
        } else {
            rest
        }
    }
}

/// What a family is registered with once its font files have been read.
#[derive(Debug)]
pub enum FamilyFonts {
    /// The faces that could be read, first choice first.
    Faces(Vec<Face>),
    /// No face could be read: the family takes the built-in proportional faces.
    Builtin,
}

/// Leaves out each face whose file could not be read, keeping the order of the
/// rest; a family left with no face falls back to the built-in faces.
pub fn family_fonts(faces: &Vec<(Face, bool)>) -> (r: FamilyFonts)
    ensures
        match r {
            FamilyFonts::Faces(v) => v@ == kept_faces(faces@) && v@.len() > 0,
            FamilyFonts::Builtin => kept_faces(faces@).len() == 0,
        },
{
    let mut kept: Vec<Face> = Vec::new();
    let mut i: usize = 0;
    while i < faces.len()
        invariant
            i <= faces@.len(),
            kept@ == kept_faces(faces@.subrange(0, i as int)),
        decreases faces@.len() - i,
    {
        let (face, read) = faces[i];
        if read {
            kept.push(face);
        }
        proof {
            assert(faces@.subrange(0, i + 1).drop_last() =~= faces@.subrange(0, i as int));
        }
        i = i + 1;
    }
    proof {
        assert(faces@.subrange(0, faces@.len() as int) =~= faces@);
    }
    if kept.len() == 0 {
        FamilyFonts::Builtin
    } else {
        FamilyFonts::Faces(kept)
    }
}

/// A font: its family and its size in tenths of a point.
#[derive(Clone, Copy, Debug, PartialEq, Eq, Structural)]
pub struct FontSpec {
    pub family: Family,
    pub size_tenths: u32,
}

/// A named text style: the toolkit's five standard ones, then the dialog's own.
#[derive(Clone, Copy, Debug, PartialEq, Eq, Structural)]
pub enum TextRole {
    Heading,
    Body,
    Monospace,
    Button,
    Small,
    DialogHeading,
    DialogBody,
    DialogFolderName,
    TextInputBody,
    ButtonBody,
}

pub open spec fn spec_role_font(role: TextRole) -> FontSpec {
    match role {
        TextRole::Heading => FontSpec { family: Family::Proportional, size_tenths: 300 },
        TextRole::Body => FontSpec { family: Family::Proportional, size_tenths: 120 },
        TextRole::Monospace => FontSpec { family: Family::Proportional, size_tenths: 140 },
        TextRole::Button => FontSpec { family: Family::Proportional, size_tenths: 140 },
        TextRole::Small => FontSpec { family: Family::Proportional, size_tenths: 100 },
        TextRole::DialogHeading => FontSpec { family: Family::TextHeavy, size_tenths: 130 },
        TextRole::DialogBody => FontSpec { family: Family::TextMedium, size_tenths: 110 },
        TextRole::DialogFolderName => FontSpec { family: Family::TextMedium, size_tenths: 115 },
        TextRole::TextInputBody => FontSpec { family: Family::TextMedium, size_tenths: 130 },
        TextRole::ButtonBody => FontSpec { family: Family::DisplayMedium, size_tenths: 135 },
    }
}

pub open spec fn spec_role_name(role: TextRole) -> Seq<char> {
    match role {
        TextRole::Heading => "Heading"@,
        TextRole::Body => "Body"@,
        TextRole::Monospace => "Monospace"@,
        TextRole::Button => "Button"@,
        TextRole::Small => "Small"@,
        TextRole::DialogHeading => "DialogHeading"@,
        TextRole::DialogBody => "DialogBody"@,
        TextRole::DialogFolderName => "DialogFolderName"@,
        TextRole::TextInputBody => "TextInputBody"@,
        TextRole::ButtonBody => "ButtonBody"@,
    }
}

/// Whether the role is one of the toolkit's standard styles rather than one
/// the dialog names itself.
pub open spec fn spec_role_is_standard(role: TextRole) -> bool {
    match role {
        TextRole::Heading | TextRole::Body | TextRole::Monospace | TextRole::Button
        | TextRole::Small => true,
        _ => false,
    }
}

impl TextRole {
    /// The font the style is drawn with.
    pub fn font(self) -> (r: FontSpec)
        ensures
            r == spec_role_font(self),
    {
        match self {
            TextRole::Heading => FontSpec { family: Family::Proportional, size_tenths: 300 },
            TextRole::Body => FontSpec { family: Family::Proportional, size_tenths: 120 },
            TextRole::Monospace => FontSpec { family: Family::Proportional, size_tenths: 140 },
            TextRole::Button => FontSpec { family: Family::Proportional, size_tenths: 140 },
            TextRole::Small => FontSpec { family: Family::Proportional, size_tenths: 100 },
            TextRole::DialogHeading => FontSpec { family: Family::TextHeavy, size_tenths: 130 },
            TextRole::DialogBody => FontSpec { family: Family::TextMedium, size_tenths: 110 },
            TextRole::DialogFolderName => FontSpec {
                family: Family::TextMedium,
                size_tenths: 115,
            },
            TextRole::TextInputBody => FontSpec { family: Family::TextMedium, size_tenths: 130 },
            TextRole::ButtonBody => FontSpec { family: Family::DisplayMedium, size_tenths: 135 },
        }
    }

    /// The style's name.
    pub fn name(self) -> (r: &'static str)
        ensures
            r@ == spec_role_name(self),
    {
        match self {
            TextRole::Heading => "Heading",
            TextRole::Body => "Body",
            TextRole::Monospace => "Monospace",
            TextRole::Button => "Button",
            TextRole::Small => "Small",
            TextRole::DialogHeading => "DialogHeading",
            TextRole::DialogBody => "DialogBody",
            TextRole::DialogFolderName => "DialogFolderName",
            TextRole::TextInputBody => "TextInputBody",
            TextRole::ButtonBody => "ButtonBody",
        }
    }

    /// Whether the style is one of the toolkit's standard ones.
    pub fn is_standard(self) -> (r: bool)
        ensures
            r == spec_role_is_standard(self),
    {
        match self {
            TextRole::Heading | TextRole::Body | TextRole::Monospace | TextRole::Button
            | TextRole::Small => true,
            _ => false,
        }
    }
}

pub open spec fn all_roles() -> Seq<TextRole> {
    seq![
        TextRole::Heading,
        TextRole::Body,
        TextRole::Monospace,
        TextRole::Button,
        TextRole::Small,
        TextRole::DialogHeading,
        TextRole::DialogBody,
        TextRole::DialogFolderName,
        TextRole::TextInputBody,
        TextRole::ButtonBody,
    ]
}

/// Every text style the dialog installs, each once.
pub fn text_roles() -> (r: Vec<TextRole>)
    ensures
        r@ == all_roles(),
{
    vec![
        TextRole::Heading,
        TextRole::Body,
        TextRole::Monospace,
        TextRole::Button,
        TextRole::Small,
        TextRole::DialogHeading,
        TextRole::DialogBody,
        TextRole::DialogFolderName,
        TextRole::TextInputBody,
        TextRole::ButtonBody,
    ]
}

/// Every text style is drawn either with the built-in family or with one of
/// the registered named families, and each registered family has a name and
/// at least one face; the standard styles keep the built-in family.
pub proof fn styles_use_registered_families(role: TextRole)
    ensures
        all_roles().contains(role),
        spec_role_font(role).family == Family::Proportional || registered_families().contains(
            spec_role_font(role).family,
        ),
        spec_role_is_standard(role) ==> spec_role_font(role).family == Family::Proportional,
        forall|i: int|
            0 <= i < registered_families().len() ==> {
                &&& spec_family_name(#[trigger] registered_families()[i]) is Some
                &&& spec_family_faces(registered_families()[i]).len() > 0
            },
{
    let fams = registered_families();
    assert(fams[0] == Family::TextHeavy);
    assert(fams[1] == Family::TextMedium);
    assert(fams[2] == Family::DisplayMedium);
    let roles = all_roles();
    let k: int = match role {
        TextRole::Heading => 0,
        TextRole::Body => 1,
        TextRole::Monospace => 2,
        TextRole::Button => 3,
        TextRole::Small => 4,
        TextRole::DialogHeading => 5,
        TextRole::DialogBody => 6,
        TextRole::DialogFolderName => 7,
        TextRole::TextInputBody => 8,
        TextRole::ButtonBody => 9,
    };
    assert(roles[k] == role);
}

} // verus!
