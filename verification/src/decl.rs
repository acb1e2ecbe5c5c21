//! The input model: an interface declaration as plain data.
//!
//! An annotated trait is described by [`TraitDecl`]: a name and a sequence of
//! items, each either a method or some other trait item that the transformer
//! passes through untouched. Attributes are modelled as a path (a sequence of
//! identifier segments) plus an optional string-literal argument, which is all
//! the transformer ever reads of them.

use vstd::prelude::*;

verus! {

/// An attribute as the transformer sees it: its path segments and, when it
/// carries one, its single string-literal argument.
#[derive(Clone, Debug, PartialEq)]
pub struct AttrDecl {
    pub segments: Vec<String>,
    pub arg: Option<String>,
}

/// Ghost image of an [`AttrDecl`].
#[verifier::ext_equal]
pub struct AttrView {
    pub segments: Seq<Seq<char>>,
    pub arg: Option<Seq<char>>,
}

impl View for AttrDecl {
    type V = AttrView;

    open spec fn view(&self) -> AttrView {
        AttrView { segments: self.segments.deep_view(), arg: self.arg.deep_view() }
    }
}

impl DeepView for AttrDecl {
    type V = AttrView;

    open spec fn deep_view(&self) -> AttrView {
        self.view()
    }
}

/// A method parameter (the receiver excluded): its identifier and the marker
/// attributes attached to it.
#[derive(Clone, Debug, PartialEq)]
pub struct ParamDecl {
    pub name: String,
    pub attrs: Vec<AttrDecl>,
}

/// Ghost image of a [`ParamDecl`].
#[verifier::ext_equal]
pub struct ParamView {
    pub name: Seq<char>,
    pub attrs: Seq<AttrView>,
}

impl View for ParamDecl {
    type V = ParamView;

    open spec fn view(&self) -> ParamView {
        ParamView { name: self.name@, attrs: self.attrs.deep_view() }
    }
}

impl DeepView for ParamDecl {
    type V = ParamView;

    open spec fn deep_view(&self) -> ParamView {
        self.view()
    }
}

/// A method declaration: its identifier, its attributes, its parameters in
/// declaration order, and whether it carries a default body.
#[derive(Clone, Debug, PartialEq)]
pub struct MethodDecl {
    pub name: String,
    pub attrs: Vec<AttrDecl>,
    pub params: Vec<ParamDecl>,
    pub has_default_body: bool,
}

/// Ghost image of a [`MethodDecl`].
#[verifier::ext_equal]
pub struct MethodView {
    pub name: Seq<char>,
    pub attrs: Seq<AttrView>,
    pub params: Seq<ParamView>,
    pub has_default_body: bool,
}

impl View for MethodDecl {
    type V = MethodView;

    open spec fn view(&self) -> MethodView {
        MethodView {
            name: self.name@,
            attrs: self.attrs.deep_view(),
            params: self.params.deep_view(),
            has_default_body: self.has_default_body,
        }
    }
}

impl DeepView for MethodDecl {
    type V = MethodView;

    open spec fn deep_view(&self) -> MethodView {
        self.view()
    }
}

/// One item of the interface: a method, or anything else, which the
/// transformer passes through unchanged.
#[derive(Clone, Debug, PartialEq)]
pub enum TraitItemDecl {
    Method(MethodDecl),
    Other,
}

/// Ghost image of a [`TraitItemDecl`].
#[verifier::ext_equal]
pub enum ItemView {
    Method(MethodView),
    Other,
}

impl View for TraitItemDecl {
    type V = ItemView;

    open spec fn view(&self) -> ItemView {
        match self {
            TraitItemDecl::Method(m) => ItemView::Method(m@),
            TraitItemDecl::Other => ItemView::Other,
        }
    }
}

impl DeepView for TraitItemDecl {
    type V = ItemView;

    open spec fn deep_view(&self) -> ItemView {
        self.view()
    }
}

/// The interface declaration handed to the transformer.
#[derive(Clone, Debug, PartialEq)]
pub struct TraitDecl {
    pub name: String,
    pub attrs: Vec<AttrDecl>,
    pub items: Vec<TraitItemDecl>,
}

/// Ghost image of a [`TraitDecl`].
#[verifier::ext_equal]
pub struct TraitView {
    pub name: Seq<char>,
    pub attrs: Seq<AttrView>,
    pub items: Seq<ItemView>,
}

impl View for TraitDecl {
    type V = TraitView;

    open spec fn view(&self) -> TraitView {
        TraitView { name: self.name@, attrs: self.attrs.deep_view(), items: self.items.deep_view() }
    }
}

impl DeepView for TraitDecl {
    type V = TraitView;

    open spec fn deep_view(&self) -> TraitView {
        self.view()
    }
}

} // verus!
