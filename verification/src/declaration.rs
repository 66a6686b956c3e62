//! The nine kinds of declaration that can be marked unstable, behind one
//! interface, and the items of a source file that they are picked from.

use crate::error::StabilityError;
use crate::item::{attrs_view, Attribute, AttributeView, Content, Header, ItemStruct};
use crate::item::{Visibility, VisibilityView};
use vstd::prelude::*;

verus! {

/// The kind of a supported declaration.
#[derive(Debug, Clone, Copy, PartialEq, Eq, Structural)]
pub enum Shape {
    TypeAlias,
    Enum,
    Struct,
    Function,
    Module,
    Interface,
    Constant,
    Static,
    ImportAlias,
}

/// A declaration that can be marked unstable.
#[derive(Debug, PartialEq, Eq)]
pub enum Declaration {
    /// `type`
    TypeAlias(Header),
    /// `enum`
    Enum(Header),
    /// `struct`
    Struct(ItemStruct),
    /// `fn`
    Function(Header),
    /// `mod`
    Module(Header),
    /// `trait`
    Interface(Header),
    /// `const`
    Constant(Header),
    /// `static`
    Static(Header),
    /// `use`
    ImportAlias(Header),
}

/// What a [`Declaration`] stands for in contracts.
pub struct DeclarationView {
    pub shape: Shape,
    pub content: Content,
}

impl DeclarationView {
    pub open spec fn is_public(self) -> bool {
        self.content.vis is Public
    }

    /// The same declaration with `attr` as its last attribute.
    pub open spec fn push_attr(self, attr: AttributeView) -> DeclarationView {
        DeclarationView { content: self.content.push_attr(attr), ..self }
    }

    /// The same declaration with the visibility `vis`. On a struct the
    /// public fields follow; nothing else has parts that could.
    pub open spec fn set_visibility(self, vis: VisibilityView) -> DeclarationView {
        if self.shape is Struct {
            DeclarationView { content: self.content.constrain(vis), ..self }
        } else {
            DeclarationView { content: self.content.replace_visibility(vis), ..self }
        }
    }
}

impl View for Declaration {
    type V = DeclarationView;

    open spec fn view(&self) -> DeclarationView {
        match self {
            Declaration::TypeAlias(item) => DeclarationView {
                shape: Shape::TypeAlias,
                content: item@,
            },
            Declaration::Enum(item) => DeclarationView { shape: Shape::Enum, content: item@ },
            Declaration::Struct(item) => DeclarationView { shape: Shape::Struct, content: item@ },
            Declaration::Function(item) => DeclarationView {
                shape: Shape::Function,
                content: item@,
            },
            Declaration::Module(item) => DeclarationView { shape: Shape::Module, content: item@ },
            Declaration::Interface(item) => DeclarationView {
                shape: Shape::Interface,
                content: item@,
            },
            Declaration::Constant(item) => DeclarationView {
                shape: Shape::Constant,
                content: item@,
            },
            Declaration::Static(item) => DeclarationView { shape: Shape::Static, content: item@ },
            Declaration::ImportAlias(item) => DeclarationView {
                shape: Shape::ImportAlias,
                content: item@,
            },
        }
    }
}

impl Clone for Declaration {
    /// An independent copy: nothing done to it reaches the declaration it
    /// was made from.
    fn clone(&self) -> (copy: Self)
        ensures
            copy@ == self@,
    {
        match self {
            Declaration::TypeAlias(item) => Declaration::TypeAlias(item.clone()),
            Declaration::Enum(item) => Declaration::Enum(item.clone()),
            Declaration::Struct(item) => Declaration::Struct(item.clone()),
            Declaration::Function(item) => Declaration::Function(item.clone()),
            Declaration::Module(item) => Declaration::Module(item.clone()),
            Declaration::Interface(item) => Declaration::Interface(item.clone()),
            Declaration::Constant(item) => Declaration::Constant(item.clone()),
            Declaration::Static(item) => Declaration::Static(item.clone()),
            Declaration::ImportAlias(item) => Declaration::ImportAlias(item.clone()),
        }
    }
}

impl Declaration {
    pub fn shape(&self) -> (shape: Shape)
        ensures
            shape == self@.shape,
    {
        match self {
            Declaration::TypeAlias(_) => Shape::TypeAlias,
            Declaration::Enum(_) => Shape::Enum,
            Declaration::Struct(_) => Shape::Struct,
            Declaration::Function(_) => Shape::Function,
            Declaration::Module(_) => Shape::Module,
            Declaration::Interface(_) => Shape::Interface,
            Declaration::Constant(_) => Shape::Constant,
            Declaration::Static(_) => Shape::Static,
            Declaration::ImportAlias(_) => Shape::ImportAlias,
        }
    }

    /// The attributes, in the order in which they are written.
    pub fn attrs(&self) -> (attrs: &Vec<Attribute>)
        ensures
            attrs_view(attrs@) == self@.content.attrs,
    {
        match self {
            Declaration::Struct(item) => item.attrs(),
            Declaration::TypeAlias(item)
            | Declaration::Enum(item)
            | Declaration::Function(item)
            | Declaration::Module(item)
            | Declaration::Interface(item)
            | Declaration::Constant(item)
            | Declaration::Static(item)
            | Declaration::ImportAlias(item) => item.attrs(),
        }
    }

    /// Appends `attr` after the attributes that are there.
    pub fn push_attr(&mut self, attr: Attribute)
        ensures
            final(self)@ == old(self)@.push_attr(attr@),
    {
        match self {
            Declaration::TypeAlias(item) => item.push_attr(attr),
            Declaration::Enum(item) => item.push_attr(attr),
            Declaration::Struct(item) => item.push_attr(attr),
            Declaration::Function(item) => item.push_attr(attr),
            Declaration::Module(item) => item.push_attr(attr),
            Declaration::Interface(item) => item.push_attr(attr),
            Declaration::Constant(item) => item.push_attr(attr),
            Declaration::Static(item) => item.push_attr(attr),
            Declaration::ImportAlias(item) => item.push_attr(attr),
        }
    }

    pub fn visibility(&self) -> (vis: &Visibility)
        ensures
            vis@ == self@.content.vis,
    {
        match self {
            Declaration::Struct(item) => item.visibility(),
            Declaration::TypeAlias(item)
            | Declaration::Enum(item)
            | Declaration::Function(item)
            | Declaration::Module(item)
            | Declaration::Interface(item)
            | Declaration::Constant(item)
            | Declaration::Static(item)
            | Declaration::ImportAlias(item) => item.visibility(),
        }
    }

    /// Replaces the declaration's visibility. A struct passes it on to its
    /// public fields; a module does not pass it on to what it holds.
    pub fn set_visibility(&mut self, visibility: Visibility)
        ensures
            final(self)@ == old(self)@.set_visibility(visibility@),
    {
        match self {
            Declaration::TypeAlias(item) => item.set_visibility(visibility),
            Declaration::Enum(item) => item.set_visibility(visibility),
            Declaration::Struct(item) => item.set_visibility(visibility),
            Declaration::Function(item) => item.set_visibility(visibility),
            Declaration::Module(item) => item.set_visibility(visibility),
            Declaration::Interface(item) => item.set_visibility(visibility),
            Declaration::Constant(item) => item.set_visibility(visibility),
            Declaration::Static(item) => item.set_visibility(visibility),
            Declaration::ImportAlias(item) => item.set_visibility(visibility),
        }
    }

    /// Whether the declaration is exported without restriction.
    pub fn is_public(&self) -> (public: bool)
        ensures
            public == self@.is_public(),
    {
        self.visibility().is_public()
    }
}

/// An item of a source file, as it is presented for rewriting. Of the
/// kinds that cannot be marked unstable only the kind is kept.
#[derive(Debug, PartialEq, Eq)]
pub enum Item {
    /// `const`
    Const(Header),
    /// `enum`
    Enum(Header),
    /// `extern crate`
    ExternCrate,
    /// `fn`
    Fn(Header),
    /// `extern "C" { .. }`
    ForeignMod,
    /// `impl`
    Impl,
    /// A macro invocation or `macro_rules!` definition.
    Macro,
    /// `mod`
    Mod(Header),
    /// `static`
    Static(Header),
    /// `struct`
    Struct(ItemStruct),
    /// `trait`
    Trait(Header),
    /// `trait A = B;`
    TraitAlias,
    /// `type`
    Type(Header),
    /// `union`
    Union,
    /// `use`
    Use(Header),
    /// Anything else.
    Verbatim,
}

impl Item {
    /// The declaration that this item is, where it is of a kind that can
    /// be marked unstable.
    pub open spec fn declaration(self) -> Option<DeclarationView> {
        match self {
            Item::Type(item) => Some(DeclarationView { shape: Shape::TypeAlias, content: item@ }),
            Item::Enum(item) => Some(DeclarationView { shape: Shape::Enum, content: item@ }),
            Item::Struct(item) => Some(DeclarationView { shape: Shape::Struct, content: item@ }),
            Item::Fn(item) => Some(DeclarationView { shape: Shape::Function, content: item@ }),
            Item::Mod(item) => Some(DeclarationView { shape: Shape::Module, content: item@ }),
            Item::Trait(item) => Some(DeclarationView { shape: Shape::Interface, content: item@ }),
            Item::Const(item) => Some(DeclarationView { shape: Shape::Constant, content: item@ }),
            Item::Static(item) => Some(DeclarationView { shape: Shape::Static, content: item@ }),
            Item::Use(item) => Some(DeclarationView { shape: Shape::ImportAlias, content: item@ }),
            _ => None,
        }
    }

    /// Picks out the declaration, or refuses an item of a kind that
    /// cannot be marked unstable.
    pub fn into_declaration(self) -> (outcome: Result<Declaration, StabilityError>)
        ensures
            match self.declaration() {
                Some(declaration) => outcome matches Ok(found) && found@ == declaration,
                None => outcome == Err::<Declaration, StabilityError>(
                    StabilityError::UnsupportedDeclaration,
                ),
            },
    {
        match self {
            Item::Type(item) => Ok(Declaration::TypeAlias(item)),
            Item::Enum(item) => Ok(Declaration::Enum(item)),
            Item::Struct(item) => Ok(Declaration::Struct(item)),
            Item::Fn(item) => Ok(Declaration::Function(item)),
            Item::Mod(item) => Ok(Declaration::Module(item)),
            Item::Trait(item) => Ok(Declaration::Interface(item)),
            Item::Const(item) => Ok(Declaration::Constant(item)),
            Item::Static(item) => Ok(Declaration::Static(item)),
            Item::Use(item) => Ok(Declaration::ImportAlias(item)),
            _ => Err(StabilityError::UnsupportedDeclaration),
        }
    }
}

/// Giving a declaration the same visibility a second time changes nothing
/// more: the fields that followed the first time hold it already.
pub proof fn lemma_set_visibility_twice(item: DeclarationView, vis: VisibilityView)
    ensures
        item.set_visibility(vis).set_visibility(vis) == item.set_visibility(vis),
{
    let once = item.set_visibility(vis);
    let twice = once.set_visibility(vis);
    assert(twice.content.fields =~= once.content.fields);
}

/// On a declaration none of whose fields is public, a new visibility
/// reaches the declaration alone; where it has that visibility already,
/// nothing changes at all.
pub proof fn lemma_set_visibility_restricted_fields(item: DeclarationView, vis: VisibilityView)
    requires
        forall|i: int|
            0 <= i < item.content.fields.len() ==> !((#[trigger] item.content.fields[i]).vis
                is Public),
    ensures
        item.set_visibility(vis) == (DeclarationView {
            content: item.content.replace_visibility(vis),
            ..item
        }),
        item.content.vis == vis ==> item.set_visibility(vis) == item,
{
    assert(item.content.constrain(vis).fields =~= item.content.fields);
}

} // verus!
