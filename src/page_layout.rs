//! How a viewer is asked to lay out the pages of a document.
use vstd::prelude::*;

verus! {

/// Describes how a page should be displayed. If this attribute is not set, the
/// setting of a viewer application is used.
#[derive(Debug, Clone, Copy, PartialEq, Eq, Structural)]
pub enum PageLayout {
    /// Only one page is displayed.
    Single,
    /// Display the pages in one column.
    OneColumn,
    /// Display the pages in two columns, the odd-numbered pages on the left.
    TwoColumnLeft,
    /// Display the pages in two columns, the odd-numbered pages on the right.
    TwoColumnRight,
}

/// The engine's code for a layout.
pub open spec fn layout_code(layout: PageLayout) -> u32 {
    match layout {
        PageLayout::Single => 0,
        PageLayout::OneColumn => 1,
        PageLayout::TwoColumnLeft => 2,
        PageLayout::TwoColumnRight => 3,
    }
}

impl PageLayout {
    /// The engine's code for this layout.
    pub fn as_int(&self) -> (code: u32)
        ensures
            code == layout_code(*self),
    {
        match *self {
            PageLayout::Single => 0,
            PageLayout::OneColumn => 1,
            PageLayout::TwoColumnLeft => 2,
            PageLayout::TwoColumnRight => 3,
        }
    }

    /// The layout that an engine code names. `None` for any other code: 4 and
    /// 5, the engine's two-page layouts, which this type does not name, and 6,
    /// which the engine reports when no layout has been set.
    pub fn from_int(code: u32) -> (layout: Option<PageLayout>)
        ensures
            layout matches Some(l) ==> layout_code(l) == code,
            layout is None <==> code > 3,
    {
        if code == 0 {
            Some(PageLayout::Single)
        } else if code == 1 {
            Some(PageLayout::OneColumn)
        } else if code == 2 {
            Some(PageLayout::TwoColumnLeft)
        } else if code == 3 {
            Some(PageLayout::TwoColumnRight)
        } else {
            None
        }
    }
}

} // verus!
