//! The position of a node in the document tree, for diagnostics.

use crate::text::{decimal, usize_to_decimal};
use vstd::prelude::*;
use vstd::string::*;

verus! {

/// A position in the document tree. A path only ever borrows its parent: it
/// is built afresh for each step of a descent and dropped when the step
/// returns.
#[derive(Clone, Copy, Debug)]
pub enum Path<'a> {
    /// The root of the document.
    Root,
    /// An element of a sequence.
    Sequence {
        /// The path of the sequence.
        parent: &'a Path<'a>,
        /// The position of the element.
        index: usize,
    },
    /// The value under a key of a mapping.
    Mapping {
        /// The path of the mapping.
        parent: &'a Path<'a>,
        /// The key.
        key: &'a str,
    },
    /// The target of an alias.
    Alias {
        /// The path of the alias.
        parent: &'a Path<'a>,
    },
    /// A position that cannot be named, such as the value under a key that
    /// is not a text.
    Unknown {
        /// The path of the enclosing node.
        parent: &'a Path<'a>,
    },
}

/// The model of a [`Path`].
pub ghost enum PathView {
    Root,
    Sequence(Box<PathView>, usize),
    Mapping(Box<PathView>, Seq<char>),
    Alias(Box<PathView>),
    Unknown(Box<PathView>),
}

impl PathView {
    /// The path as diagnostics write it: `.` for the root, `a.b[2].c` for a
    /// position below it, and a `?` for a segment that cannot be named.
    pub open spec fn render(self) -> Seq<char>
        decreases self, 0int,
    {
        match self {
            PathView::Root => "."@,
            PathView::Sequence(parent, index) => parent.render() + "["@ + decimal(index as nat)
                + "]"@,
            PathView::Mapping(parent, key) => parent.prefix() + key,
            PathView::Alias(parent) => parent.render(),
            PathView::Unknown(parent) => parent.prefix() + "?"@,
        }
    }

    /// What stands before the name of a child: nothing at the root, and the
    /// path with a dot elsewhere.
    pub open spec fn prefix(self) -> Seq<char>
        decreases self, 1int,
    {
        match self {
            PathView::Root => Seq::empty(),
            _ => self.render() + "."@,
        }
    }

    /// The path of the element at `index` of the sequence at this path.
    pub open spec fn at(self, index: usize) -> PathView {
        PathView::Sequence(Box::new(self), index)
    }

    /// The path of the value under `key` of the mapping at this path.
    pub open spec fn under(self, key: Seq<char>) -> PathView {
        PathView::Mapping(Box::new(self), key)
    }

    /// The path of a child of this path that cannot be named.
    pub open spec fn unknown(self) -> PathView {
        PathView::Unknown(Box::new(self))
    }
}

impl<'a> Path<'a> {
    /// The model of the path.
    pub open spec fn model(&self) -> PathView
        decreases self,
    {
        match self {
            Path::Root => PathView::Root,
            Path::Sequence { parent, index } => PathView::Sequence(
                Box::new(parent.model()),
                *index,
            ),
            Path::Mapping { parent, key } => PathView::Mapping(Box::new(parent.model()), key@),
            Path::Alias { parent } => PathView::Alias(Box::new(parent.model())),
            Path::Unknown { parent } => PathView::Unknown(Box::new(parent.model())),
        }
    }

    fn write(&self, out: &mut String)
        ensures
            final(out)@ == old(out)@ + self.model().render(),
        decreases self, 0int,
    {
        match self {
            Path::Root => {
                out.append(".");
            },
            Path::Sequence { parent, index } => {
                parent.write(out);
                out.append("[");
                out.append(usize_to_decimal(*index).as_str());
                out.append("]");
                assert(out@ =~= old(out)@ + self.model().render());
            },
            Path::Mapping { parent, key } => {
                parent.write_prefix(out);
                out.append(key);
                assert(out@ =~= old(out)@ + self.model().render());
            },
            Path::Alias { parent } => {
                parent.write(out);
            },
            Path::Unknown { parent } => {
                parent.write_prefix(out);
                out.append("?");
                assert(out@ =~= old(out)@ + self.model().render());
            },
        }
    }

    fn write_prefix(&self, out: &mut String)
        ensures
            final(out)@ == old(out)@ + self.model().prefix(),
        decreases self, 1int,
    {
        match self {
            Path::Root => {
                assert(out@ =~= old(out)@ + self.model().prefix());
            },
            _ => {
                self.write(out);
                out.append(".");
                assert(out@ =~= old(out)@ + self.model().prefix());
            },
        }
    }

    /// Writes the path as diagnostics show it.
    pub fn to_string(&self) -> (r: String)
        ensures
            r@ == self@.render(),
    {
        let mut out = String::new();
        self.write(&mut out);
        assert(out@ =~= self@.render());
        out
    }
}

impl<'a> View for Path<'a> {
    type V = PathView;

    open spec fn view(&self) -> PathView {
        self.model()
    }
}

} // verus!
