//! Messages to members as plain data: a colour, a footer, an optional title
//! and description, and a list of fields. Whoever sends a message turns this
//! value into the platform's own form.

use vstd::prelude::*;

verus! {

/// The palette of the University of Guelph brand guide.
#[derive(Clone, Copy, Debug, PartialEq, Eq, Structural)]
pub enum GuelphColors {
    Red,
    Black,
    Gold,
    Blue,
}

/// A colour by its red, green and blue parts.
#[derive(Clone, Copy, Debug, PartialEq, Eq, Structural)]
pub struct Colour {
    pub red: u8,
    pub green: u8,
    pub blue: u8,
}

impl GuelphColors {
    /// The parts of each colour of the palette.
    pub open spec fn rgb(self) -> Colour {
        match self {
            GuelphColors::Red => Colour { red: 194, green: 4, blue: 48 },
            GuelphColors::Black => Colour { red: 0, green: 0, blue: 0 },
            GuelphColors::Gold => Colour { red: 255, green: 199, blue: 42 },
            GuelphColors::Blue => Colour { red: 105, green: 163, blue: 185 },
        }
    }

    /// Convert to rgb colors.
    pub fn to_colour(&self) -> (colour: Colour)
        ensures
            colour == self.rgb(),
    {
        match self {
            GuelphColors::Red => Colour { red: 194, green: 4, blue: 48 },
            GuelphColors::Black => Colour { red: 0, green: 0, blue: 0 },
            GuelphColors::Gold => Colour { red: 255, green: 199, blue: 42 },
            GuelphColors::Blue => Colour { red: 105, green: 163, blue: 185 },
        }
    }
}

/// One titled line of an embed.
#[derive(Debug, PartialEq, Eq)]
pub struct EmbedField {
    pub name: String,
    pub value: String,
    pub inline: bool,
}

/// What an [`EmbedField`] holds, as mathematical values.
pub ghost struct EmbedFieldView {
    pub name: Seq<char>,
    pub value: Seq<char>,
    pub inline: bool,
}

impl View for EmbedField {
    type V = EmbedFieldView;

    open spec fn view(&self) -> EmbedFieldView {
        EmbedFieldView { name: self.name@, value: self.value@, inline: self.inline }
    }
}

impl DeepView for EmbedField {
    type V = EmbedFieldView;

    open spec fn deep_view(&self) -> EmbedFieldView {
        self@
    }
}

/// A message in the service's common style.
#[derive(Debug, PartialEq, Eq)]
pub struct Embed {
    pub colour: GuelphColors,
    pub footer: String,
    pub title: Option<String>,
    pub description: Option<String>,
    pub fields: Vec<EmbedField>,
}

/// What an [`Embed`] holds, as mathematical values.
pub ghost struct EmbedView {
    pub colour: GuelphColors,
    pub footer: Seq<char>,
    pub title: Option<Seq<char>>,
    pub description: Option<Seq<char>>,
    pub fields: Seq<EmbedFieldView>,
}

impl EmbedView {
    /// The same embed under another description.
    pub open spec fn described(self, text: Seq<char>) -> EmbedView {
        EmbedView { description: Some(text), ..self }
    }

    /// The same embed under another title.
    pub open spec fn titled(self, text: Seq<char>) -> EmbedView {
        EmbedView { title: Some(text), ..self }
    }

    /// The same embed in another colour.
    pub open spec fn coloured(self, colour: GuelphColors) -> EmbedView {
        EmbedView { colour, ..self }
    }

    /// The same embed with one more field at the end.
    pub open spec fn with_field(self, name: Seq<char>, value: Seq<char>, inline: bool) -> EmbedView {
        EmbedView { fields: self.fields.push(EmbedFieldView { name, value, inline }), ..self }
    }
}

impl View for Embed {
    type V = EmbedView;

    open spec fn view(&self) -> EmbedView {
        EmbedView {
            colour: self.colour,
            footer: self.footer@,
            title: match self.title {
                Some(t) => Some(t@),
                None => None,
            },
            description: match self.description {
                Some(d) => Some(d@),
                None => None,
            },
            fields: self.fields.deep_view(),
        }
    }
}

impl DeepView for Embed {
    type V = EmbedView;

    open spec fn deep_view(&self) -> EmbedView {
        self@
    }
}

/// The embed that [`default_embed`] returns for a colour.
pub open spec fn default_embed_view(color: GuelphColors) -> EmbedView {
    EmbedView {
        colour: color,
        footer: "The UoFG FSAE bot will never ask for your personal information."@,
        title: None,
        description: None,
        fields: Seq::empty(),
    }
}

/// Generate a default embed: the common footer under the given colour, and
/// nothing else yet.
pub fn default_embed(color: GuelphColors) -> (embed: Embed)
    ensures
        embed@ == default_embed_view(color),
{
    let embed = Embed {
        colour: color,
        footer: "The UoFG FSAE bot will never ask for your personal information.".to_owned(),
        title: None,
        description: None,
        fields: Vec::new(),
    };
    assert(embed.fields.deep_view() =~= Seq::<EmbedFieldView>::empty());
    embed
}

impl Embed {
    /// Sets the description, replacing an earlier one.
    pub fn description(self, text: &str) -> (embed: Embed)
        ensures
            embed@ == self@.described(text@),
    {
        let Embed { colour, footer, title, description: _, fields } = self;
        Embed { colour, footer, title, description: Some(text.to_owned()), fields }
    }

    /// Sets the title, replacing an earlier one.
    pub fn title(self, text: &str) -> (embed: Embed)
        ensures
            embed@ == self@.titled(text@),
    {
        let Embed { colour, footer, title: _, description, fields } = self;
        Embed { colour, footer, title: Some(text.to_owned()), description, fields }
    }

    /// Sets the colour.
    pub fn colour(self, colour: GuelphColors) -> (embed: Embed)
        ensures
            embed@ == self@.coloured(colour),
    {
        let Embed { colour: _, footer, title, description, fields } = self;
        Embed { colour, footer, title, description, fields }
    }

    /// Adds a field after those already there.
    pub fn field(self, name: &str, value: &str, inline: bool) -> (embed: Embed)
        ensures
            embed@ == self@.with_field(name@, value@, inline),
    {
        let Embed { colour, footer, title, description, fields } = self;
        let mut fields = fields;
        let ghost before = fields.deep_view();
        fields.push(EmbedField { name: name.to_owned(), value: value.to_owned(), inline });
        assert(fields.deep_view() =~= before.push(
            EmbedFieldView { name: name@, value: value@, inline },
        ));
        Embed { colour, footer, title, description, fields }
    }
}

} // verus!
