//! The declarations that can be marked unstable, reduced to what the rewrite
//! reads and writes: a visibility, a list of attributes and, for a struct,
//! the visibility of each field.

use vstd::prelude::*;

verus! {

/// Who may name a declaration or a field.
#[derive(Debug, PartialEq, Eq)]
pub enum Visibility {
    /// Exported without restriction: `pub`.
    Public,
    /// Anything narrower, kept as the marker was written (`pub(crate)`,
    /// `pub(super)`, `pub(in some::path)`, or nothing at all).
    Restricted(String),
}

/// What a [`Visibility`] stands for in contracts.
pub enum VisibilityView {
    Public,
    Restricted(Seq<char>),
}

impl View for Visibility {
    type V = VisibilityView;

    open spec fn view(&self) -> VisibilityView {
        match self {
            Visibility::Public => VisibilityView::Public,
            Visibility::Restricted(scope) => VisibilityView::Restricted(scope@),
        }
    }
}

impl Clone for Visibility {
    fn clone(&self) -> (copy: Self)
        ensures
            copy@ == self@,
    {
        match self {
            Visibility::Public => Visibility::Public,
            Visibility::Restricted(scope) => Visibility::Restricted(scope.clone()),
        }
    }
}

impl Visibility {
    /// The marker that confines a declaration to the crate that defines it.
    pub open spec fn crate_only() -> VisibilityView {
        VisibilityView::Restricted("pub(crate)"@)
    }

    /// Builds the marker that confines a declaration to its own crate.
    pub fn restricted_to_crate() -> (vis: Visibility)
        ensures
            vis@ == Visibility::crate_only(),
    {
        Visibility::Restricted(String::from_str("pub(crate)"))
    }

    /// Whether this is the unrestricted `pub`.
    pub fn is_public(&self) -> (public: bool)
        ensures
            public == (self@ is Public),
    {
        match self {
            Visibility::Public => true,
            Visibility::Restricted(_) => false,
        }
    }
}

/// One attribute of a declaration. The rewrite never looks inside one; it
/// only appends documentation.
#[derive(Debug, PartialEq, Eq)]
pub enum Attribute {
    /// `#[doc = "..."]` with the given text.
    Doc(String),
    /// Any other attribute, kept as it was written.
    Other(String),
}

/// What an [`Attribute`] stands for in contracts.
pub enum AttributeView {
    Doc(Seq<char>),
    Other(Seq<char>),
}

impl View for Attribute {
    type V = AttributeView;

    open spec fn view(&self) -> AttributeView {
        match self {
            Attribute::Doc(text) => AttributeView::Doc(text@),
            Attribute::Other(source) => AttributeView::Other(source@),
        }
    }
}

impl Clone for Attribute {
    fn clone(&self) -> (copy: Self)
        ensures
            copy@ == self@,
    {
        match self {
            Attribute::Doc(text) => Attribute::Doc(text.clone()),
            Attribute::Other(source) => Attribute::Other(source.clone()),
        }
    }
}

/// One field of a struct, by its visibility.
#[derive(Debug, PartialEq, Eq)]
pub struct Field {
    pub vis: Visibility,
}

/// What a [`Field`] stands for in contracts.
pub struct FieldView {
    pub vis: VisibilityView,
}

impl View for Field {
    type V = FieldView;

    open spec fn view(&self) -> FieldView {
        FieldView { vis: self.vis@ }
    }
}

impl Clone for Field {
    fn clone(&self) -> (copy: Self)
        ensures
            copy@ == self@,
    {
        Field { vis: self.vis.clone() }
    }
}

impl FieldView {
    /// The field after its struct was given the visibility `vis`: a public
    /// field follows the struct, any other field keeps what it had.
    pub open spec fn constrain(self, vis: VisibilityView) -> FieldView {
        if self.vis is Public {
            FieldView { vis }
        } else {
            self
        }
    }
}

/// The attributes of a declaration, each by its view.
pub open spec fn attrs_view(attrs: Seq<Attribute>) -> Seq<AttributeView> {
    attrs.map_values(|attr: Attribute| attr@)
}

/// The fields of a struct, each by its view.
pub open spec fn fields_view(fields: Seq<Field>) -> Seq<FieldView> {
    fields.map_values(|field: Field| field@)
}

/// The parts of a declaration that the rewrite works on.
pub struct Content {
    pub vis: VisibilityView,
    pub attrs: Seq<AttributeView>,
    /// Empty for everything but a struct.
    pub fields: Seq<FieldView>,
}

impl Content {
    /// The same declaration with `attr` as its last attribute.
    pub open spec fn push_attr(self, attr: AttributeView) -> Content {
        Content { attrs: self.attrs.push(attr), ..self }
    }

    /// The same declaration with `vis` as its own visibility.
    pub open spec fn replace_visibility(self, vis: VisibilityView) -> Content {
        Content { vis, ..self }
    }

    /// The same declaration with `vis` as its own visibility and as that of
    /// each field that was public.
    pub open spec fn constrain(self, vis: VisibilityView) -> Content {
        Content {
            vis,
            fields: self.fields.map_values(|field: FieldView| field.constrain(vis)),
            ..self
        }
    }
}

/// Copies a list of attributes.
fn clone_attrs(attrs: &Vec<Attribute>) -> (copy: Vec<Attribute>)
    ensures
        attrs_view(copy@) == attrs_view(attrs@),
{
    let mut copy: Vec<Attribute> = Vec::new();
    let mut i: usize = 0;
    while i < attrs.len()
        invariant
            i <= attrs.len(),
            copy@.len() == i,
            forall|j: int| 0 <= j < i ==> (#[trigger] copy@[j])@ == attrs@[j]@,
        decreases attrs.len() - i,
    {
        copy.push(attrs[i].clone());
        i += 1;
    }
    assert(attrs_view(copy@) =~= attrs_view(attrs@));
    copy
}

/// Copies a list of fields.
fn clone_fields(fields: &Vec<Field>) -> (copy: Vec<Field>)
    ensures
        fields_view(copy@) == fields_view(fields@),
{
    let mut copy: Vec<Field> = Vec::new();
    let mut i: usize = 0;
    while i < fields.len()
        invariant
            i <= fields.len(),
            copy@.len() == i,
            forall|j: int| 0 <= j < i ==> (#[trigger] copy@[j])@ == fields@[j]@,
        decreases fields.len() - i,
    {
        copy.push(fields[i].clone());
        i += 1;
    }
    assert(fields_view(copy@) =~= fields_view(fields@));
    copy
}

/// A declaration without parts of its own that carry a visibility: a type
/// alias, an enum, a function, a module, a trait, a constant, a static or
/// a `use`.
#[derive(Debug, PartialEq, Eq)]
pub struct Header {
    pub vis: Visibility,
    pub attrs: Vec<Attribute>,
}

impl View for Header {
    type V = Content;

    open spec fn view(&self) -> Content {
        Content { vis: self.vis@, attrs: attrs_view(self.attrs@), fields: Seq::empty() }
    }
}

impl Clone for Header {
    fn clone(&self) -> (copy: Self)
        ensures
            copy@ == self@,
    {
        Header { vis: self.vis.clone(), attrs: clone_attrs(&self.attrs) }
    }
}

impl Header {
    pub fn new(vis: Visibility, attrs: Vec<Attribute>) -> (header: Header)
        ensures
            header.vis == vis,
            header.attrs == attrs,
    {
        Header { vis, attrs }
    }

    /// The attributes, in the order in which they are written.
    pub fn attrs(&self) -> (attrs: &Vec<Attribute>)
        ensures
            *attrs == self.attrs,
    {
        &self.attrs
    }

    /// Appends `attr` after the attributes that are there.
    pub fn push_attr(&mut self, attr: Attribute)
        ensures
            final(self)@ == old(self)@.push_attr(attr@),
    {
        let ghost before = self.attrs@;
        self.attrs.push(attr);
        assert(attrs_view(self.attrs@) =~= attrs_view(before).push(attr@));
    }

    pub fn visibility(&self) -> (vis: &Visibility)
        ensures
            *vis == self.vis,
    {
        &self.vis
    }

    /// Replaces the declaration's visibility.
    pub fn set_visibility(&mut self, visibility: Visibility)
        ensures
            final(self)@ == old(self)@.replace_visibility(visibility@),
    {
        self.vis = visibility;
    }
}

/// A struct: besides its own visibility, each field has one.
#[derive(Debug, PartialEq, Eq)]
pub struct ItemStruct {
    pub vis: Visibility,
    pub attrs: Vec<Attribute>,
    pub fields: Vec<Field>,
}

impl View for ItemStruct {
    type V = Content;

    open spec fn view(&self) -> Content {
        Content {
            vis: self.vis@,
            attrs: attrs_view(self.attrs@),
            fields: fields_view(self.fields@),
        }
    }
}

impl Clone for ItemStruct {
    fn clone(&self) -> (copy: Self)
        ensures
            copy@ == self@,
    {
        ItemStruct {
            vis: self.vis.clone(),
            attrs: clone_attrs(&self.attrs),
            fields: clone_fields(&self.fields),
        }
    }
}

impl ItemStruct {
    pub fn new(vis: Visibility, attrs: Vec<Attribute>, fields: Vec<Field>) -> (item: ItemStruct)
        ensures
            item.vis == vis,
            item.attrs == attrs,
            item.fields == fields,
    {
        ItemStruct { vis, attrs, fields }
    }

    /// The attributes, in the order in which they are written.
    pub fn attrs(&self) -> (attrs: &Vec<Attribute>)
        ensures
            *attrs == self.attrs,
    {
        &self.attrs
    }

    /// Appends `attr` after the attributes that are there.
    pub fn push_attr(&mut self, attr: Attribute)
        ensures
            final(self)@ == old(self)@.push_attr(attr@),
    {
        let ghost before = self.attrs@;
        self.attrs.push(attr);
        assert(attrs_view(self.attrs@) =~= attrs_view(before).push(attr@));
    }

    pub fn visibility(&self) -> (vis: &Visibility)
        ensures
            *vis == self.vis,
    {
        &self.vis
    }

    /// Replaces the struct's visibility, and constrains each public field
    /// to be at most as visible as the struct. Fields that are not public
    /// stay as they are.
    pub fn set_visibility(&mut self, visibility: Visibility)
        ensures
            final(self)@ == old(self)@.constrain(visibility@),
    {
        let ghost before = fields_view(self.fields@);
        let mut i: usize = 0;
        while i < self.fields.len()
            invariant
                i <= self.fields.len(),
                self.fields@.len() == before.len(),
                self.vis == old(self).vis,
                self.attrs == old(self).attrs,
                before == fields_view(old(self).fields@),
                forall|j: int|
                    0 <= j < i ==> (#[trigger] self.fields@[j])@ == before[j].constrain(
                        visibility@,
                    ),
                forall|j: int| i <= j < before.len() ==> (#[trigger] self.fields@[j])@ == before[j],
            decreases self.fields.len() - i,
        {
            if self.fields[i].vis.is_public() {
                self.fields.set(i, Field { vis: visibility.clone() });
            }
            i += 1;
        }
        self.vis = visibility;
        assert(fields_view(self.fields@) =~= before.map_values(
            |field: FieldView| field.constrain(visibility@),
        ));
    }
}

} // verus!
