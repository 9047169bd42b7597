use vstd::prelude::*;

use crate::custom::clone_entries;
use crate::custom::entries_view;
use crate::custom::inherit_custom;
use crate::custom::merge_custom;
use crate::custom::CustomEntry;
use crate::custom::CustomEntryView;
use crate::error::Error;
use crate::graph::Graph;
use crate::graph::GraphView;
use crate::util::clone_strings;
use crate::util::strings_view;
use crate::validation::orchestrator::graph_validate_spec;

verus! {

/// What kind of drawing one frame is.
#[derive(Clone, Copy, Debug)]
pub enum FrameClass {
    CreasePattern,
    FoldedForm,
    Graph,
    Linkage,
}

/// A structural property a frame claims of its mesh.
#[derive(Clone, Copy, Debug)]
pub enum FrameAttribute {
    TwoDimensional,
    ThreeDimensional,
    Abstract,
    Manifold,
    NonManifold,
    Orientable,
    NonOrientable,
    SelfTouching,
    NonSelfTouching,
    SelfIntersecting,
    NonSelfIntersecting,
    Cuts,
    NoCuts,
    Joins,
    NoJoins,
    ConvexFaces,
    NonConvexFaces,
}

/// The unit of measurement of a frame's coordinates.
#[derive(Clone, Copy, Debug)]
pub enum FrameUnit {
    Unit,
    Inch,
    PostScriptPoints,
    Meters,
    Centimeters,
    Millimeters,
    Microns,
    Nanometers,
}

/// One mesh snapshot of a document: its metadata, its graph, its link to a
/// parent frame, and an open bag of format-extension key/value pairs.
pub struct Frame {
    pub author: String,
    pub title: String,
    pub description: String,
    pub classes: Vec<String>,
    pub attributes: Vec<String>,
    pub unit: String,
    pub graph: Graph,
    pub parent: Option<usize>,
    pub inherit: bool,
    pub custom_data: Vec<CustomEntry>,
}

/// The mathematical content of a [`Frame`].
#[verifier::ext_equal]
pub ghost struct FrameView {
    pub author: Seq<char>,
    pub title: Seq<char>,
    pub description: Seq<char>,
    pub classes: Seq<Seq<char>>,
    pub attributes: Seq<Seq<char>>,
    pub unit: Seq<char>,
    pub graph: GraphView,
    pub parent: Option<usize>,
    pub inherit: bool,
    pub custom_data: Seq<CustomEntryView>,
}

impl View for Frame {
    type V = FrameView;

    open spec fn view(&self) -> FrameView {
        FrameView {
            author: self.author@,
            title: self.title@,
            description: self.description@,
            classes: strings_view(self.classes@),
            attributes: strings_view(self.attributes@),
            unit: self.unit@,
            graph: self.graph@,
            parent: self.parent,
            inherit: self.inherit,
            custom_data: entries_view(self.custom_data@),
        }
    }
}

impl FrameView {
    /// The frame with every field unset.
    pub open spec fn empty() -> FrameView {
        FrameView {
            author: Seq::empty(),
            title: Seq::empty(),
            description: Seq::empty(),
            classes: Seq::empty(),
            attributes: Seq::empty(),
            unit: Seq::empty(),
            graph: GraphView::empty(),
            parent: None,
            inherit: false,
            custom_data: Seq::empty(),
        }
    }

    /// One inheritance step: each empty metadata field and each absent graph
    /// array of the child is taken from the parent wholesale; the parent link
    /// is taken only when the child has none; the inherit flag becomes the
    /// parent's; custom-data keys absent in the child are copied over.
    pub open spec fn merged(c: FrameView, p: FrameView) -> FrameView {
        FrameView {
            author: if c.author.len() == 0 {
                p.author
            } else {
                c.author
            },
            title: if c.title.len() == 0 {
                p.title
            } else {
                c.title
            },
            description: if c.description.len() == 0 {
                p.description
            } else {
                c.description
            },
            classes: if c.classes.len() == 0 {
                p.classes
            } else {
                c.classes
            },
            attributes: if c.attributes.len() == 0 {
                p.attributes
            } else {
                c.attributes
            },
            unit: if c.unit.len() == 0 {
                p.unit
            } else {
                c.unit
            },
            graph: GraphView::merged(c.graph, p.graph),
            parent: if c.parent is None {
                p.parent
            } else {
                c.parent
            },
            inherit: p.inherit,
            custom_data: merge_custom(c.custom_data, p.custom_data),
        }
    }
}

impl Clone for Frame {
    fn clone(&self) -> (r: Self)
        ensures
            r@ == self@,
    {
        let r = Frame {
            author: self.author.clone(),
            title: self.title.clone(),
            description: self.description.clone(),
            classes: clone_strings(&self.classes),
            attributes: clone_strings(&self.attributes),
            unit: self.unit.clone(),
            graph: self.graph.clone(),
            parent: self.parent,
            inherit: self.inherit,
            custom_data: clone_entries(&self.custom_data),
        };
        proof {
            assert(r@ =~~= self@);
        }
        r
    }
}

impl Frame {
    /// A frame with every field unset.
    pub fn new() -> (r: Self)
        ensures
            r@ == FrameView::empty(),
    {
        let r = Frame {
            author: String::new(),
            title: String::new(),
            description: String::new(),
            classes: Vec::new(),
            attributes: Vec::new(),
            unit: String::new(),
            graph: Graph::new(),
            parent: None,
            inherit: false,
            custom_data: Vec::new(),
        };
        proof {
            assert(r@ =~~= FrameView::empty());
        }
        r
    }

    /// Fill each field this frame leaves unset from `frame`, one inheritance
    /// step of the resolver's walk.
    pub fn inherit_properties(&mut self, frame: &Self)
        ensures
            final(self)@ == FrameView::merged(old(self)@, frame@),
    {
        if self.author.as_str().is_empty() {
            self.author = frame.author.clone();
        }
        if self.title.as_str().is_empty() {
            self.title = frame.title.clone();
        }
        if self.description.as_str().is_empty() {
            self.description = frame.description.clone();
        }
        if self.classes.len() == 0 {
            self.classes = clone_strings(&frame.classes);
        }
        if self.attributes.len() == 0 {
            self.attributes = clone_strings(&frame.attributes);
        }
        if self.unit.as_str().is_empty() {
            self.unit = frame.unit.clone();
        }
        self.graph.inherit_properties(&frame.graph);
        if self.parent.is_none() {
            self.parent = frame.parent;
        }
        self.inherit = frame.inherit;
        inherit_custom(&mut self.custom_data, &frame.custom_data);
        proof {
            assert(self@ =~~= FrameView::merged(old(self)@, frame@));
        }
    }

    /// Check this frame's graph against every consistency rule.
    pub fn validate(&self) -> (r: Result<(), Error>)
        ensures
            r == graph_validate_spec(self@.graph),
    {
        self.graph.validate()
    }
}

} // verus!
