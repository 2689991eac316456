use crate::geometry::Bounds;
use std::ops::Range;
use vstd::prelude::*;

verus! {

/// The selected text as a range of UTF-16 code units.
#[derive(Debug, PartialEq, Eq)]
pub struct UTF16Selection {
    pub range: Range<usize>,
    /// Whether the head of the selection is at the start of the range
    pub reversed: bool,
}

/// What a view implements to take textual input, as an editor or a field
/// does. Ranges count UTF-16 code units.
///
/// Each method comes with a relation, named after it, between what the
/// method is handed, the view before and after the call, and what comes
/// back. An implementation defines the relation to say what its method
/// does; left as it is, the relation says nothing. Whoever calls a method
/// through this trait learns that the relation holds, and no more.
pub trait ViewInputHandler: Sized {
    /// What `text_for_range` does: `before` and `adjusted_before` are the
    /// view and the adjusted range when it is called, `after` and
    /// `adjusted_after` when it returns `result`.
    open spec fn text_for_range_ensures(
        before: Self,
        range: Range<usize>,
        adjusted_before: Option<Range<usize>>,
        after: Self,
        adjusted_after: Option<Range<usize>>,
        result: Option<String>,
    ) -> bool {
        true
    }

    /// What `selected_text_range` does.
    open spec fn selected_text_range_ensures(
        before: Self,
        ignore_disabled_input: bool,
        after: Self,
        result: Option<UTF16Selection>,
    ) -> bool {
        true
    }

    /// What `marked_text_range` returns of the view `view`.
    open spec fn marked_text_range_ensures(view: Self, result: Option<Range<usize>>) -> bool {
        true
    }

    /// What `unmark_text` does.
    open spec fn unmark_text_ensures(before: Self, after: Self) -> bool {
        true
    }

    /// What `replace_text_in_range` does.
    open spec fn replace_text_in_range_ensures(
        before: Self,
        range: Option<Range<usize>>,
        text: Seq<char>,
        after: Self,
    ) -> bool {
        true
    }

    /// What `replace_and_mark_text_in_range` does.
    open spec fn replace_and_mark_text_in_range_ensures(
        before: Self,
        range: Option<Range<usize>>,
        new_text: Seq<char>,
        new_selected_range: Option<Range<usize>>,
        after: Self,
    ) -> bool {
        true
    }

    /// What `bounds_for_range` does.
    open spec fn bounds_for_range_ensures(
        before: Self,
        range_utf16: Range<usize>,
        element_bounds: Bounds,
        after: Self,
        result: Option<Bounds>,
    ) -> bool {
        true
    }

    /// The text in `range`. If the range had to be adjusted to the text,
    /// `adjusted_range` is set to the range that was used.
    fn text_for_range(
        &mut self,
        range: Range<usize>,
        adjusted_range: &mut Option<Range<usize>>,
    ) -> (result: Option<String>)
        ensures
            Self::text_for_range_ensures(
                *old(self),
                range,
                *old(adjusted_range),
                *final(self),
                *final(adjusted_range),
                result,
            ),
    ;

    /// The range that is selected.
    fn selected_text_range(&mut self, ignore_disabled_input: bool) -> (result: Option<
        UTF16Selection,
    >)
        ensures
            Self::selected_text_range_ensures(
                *old(self),
                ignore_disabled_input,
                *final(self),
                result,
            ),
    ;

    /// The range that an input method has marked, if there is one.
    fn marked_text_range(&self) -> (result: Option<Range<usize>>)
        ensures
            Self::marked_text_range_ensures(*self, result),
    ;

    /// Clears the marked range.
    fn unmark_text(&mut self)
        ensures
            Self::unmark_text_ensures(*old(self), *final(self)),
    ;

    /// Replaces the text in `range`, or the marked or selected text without
    /// a range, by `text`.
    fn replace_text_in_range(&mut self, range: Option<Range<usize>>, text: &str)
        ensures
            Self::replace_text_in_range_ensures(*old(self), range, text@, *final(self)),
    ;

    /// Replaces the text in `range` by `new_text`, marks the new text and
    /// selects `new_selected_range` inside it.
    fn replace_and_mark_text_in_range(
        &mut self,
        range: Option<Range<usize>>,
        new_text: &str,
        new_selected_range: Option<Range<usize>>,
    )
        ensures
            Self::replace_and_mark_text_in_range_ensures(
                *old(self),
                range,
                new_text@,
                new_selected_range,
                *final(self),
            ),
    ;

    /// Where the text in `range_utf16` is drawn, for an element drawn in
    /// `element_bounds`.
    fn bounds_for_range(&mut self, range_utf16: Range<usize>, element_bounds: Bounds) -> (result:
        Option<Bounds>)
        ensures
            Self::bounds_for_range_ensures(
                *old(self),
                range_utf16,
                element_bounds,
                *final(self),
                result,
            ),
    ;
}

/// Hands textual input on to a view, together with the bounds of the
/// element that the view draws its text in.
pub struct ElementInputHandler<V> {
    view: V,
    element_bounds: Bounds,
}

impl<V> ElementInputHandler<V> {
    /// A handler for `view`, whose text is drawn in `element_bounds`.
    pub fn new(element_bounds: Bounds, view: V) -> (r: ElementInputHandler<V>)
        ensures
            r.view() == view,
            r.element_bounds() == element_bounds,
    {
        ElementInputHandler { view, element_bounds }
    }

    /// The view that takes the input.
    pub closed spec fn view(&self) -> V {
        self.view
    }

    /// The bounds of the element that the view draws its text in.
    pub closed spec fn element_bounds(&self) -> Bounds {
        self.element_bounds
    }

    /// The bounds of the element that the view draws its text in.
    pub fn bounds(&self) -> (r: Bounds)
        ensures
            r == self.element_bounds(),
    {
        self.element_bounds
    }
}

impl<V: ViewInputHandler> ElementInputHandler<V> {
    /// Asks the view for the selected range: what comes back, and what
    /// becomes of the view, is what the view's `selected_text_range` does
    /// when handed `ignore_disabled_input`.
    pub fn selected_text_range(&mut self, ignore_disabled_input: bool) -> (r: Option<
        UTF16Selection,
    >)
        ensures
            V::selected_text_range_ensures(
                old(self).view(),
                ignore_disabled_input,
                final(self).view(),
                r,
            ),
            final(self).element_bounds() == old(self).element_bounds(),
    {
        self.view.selected_text_range(ignore_disabled_input)
    }

    /// Asks the view for the marked range: what comes back is what the
    /// view's `marked_text_range` returns. The handler stays as it is.
    pub fn marked_text_range(&mut self) -> (r: Option<Range<usize>>)
        ensures
            V::marked_text_range_ensures(old(self).view(), r),
            final(self).view() == old(self).view(),
            final(self).element_bounds() == old(self).element_bounds(),
    {
        self.view.marked_text_range()
    }

    /// Asks the view for the text in `range_utf16`: what comes back, what
    /// becomes of `adjusted_range` and of the view, is what the view's
    /// `text_for_range` does when handed `range_utf16` and
    /// `adjusted_range`.
    pub fn text_for_range(
        &mut self,
        range_utf16: Range<usize>,
        adjusted_range: &mut Option<Range<usize>>,
    ) -> (r: Option<String>)
        ensures
            V::text_for_range_ensures(
                old(self).view(),
                range_utf16,
                *old(adjusted_range),
                final(self).view(),
                *final(adjusted_range),
                r,
            ),
            final(self).element_bounds() == old(self).element_bounds(),
    {
        self.view.text_for_range(range_utf16, adjusted_range)
    }

    /// Has the view replace the text in `replacement_range` by `text`: what
    /// becomes of the view is what its `replace_text_in_range` does when
    /// handed the two.
    pub fn replace_text_in_range(&mut self, replacement_range: Option<Range<usize>>, text: &str)
        ensures
            V::replace_text_in_range_ensures(
                old(self).view(),
                replacement_range,
                text@,
                final(self).view(),
            ),
            final(self).element_bounds() == old(self).element_bounds(),
    {
        self.view.replace_text_in_range(replacement_range, text)
    }

    /// Has the view replace the text in `range_utf16` by `new_text` and mark
    /// it: what becomes of the view is what its
    /// `replace_and_mark_text_in_range` does when handed the three.
    pub fn replace_and_mark_text_in_range(
        &mut self,
        range_utf16: Option<Range<usize>>,
        new_text: &str,
        new_selected_range: Option<Range<usize>>,
    )
        ensures
            V::replace_and_mark_text_in_range_ensures(
                old(self).view(),
                range_utf16,
                new_text@,
                new_selected_range,
                final(self).view(),
            ),
            final(self).element_bounds() == old(self).element_bounds(),
    {
        self.view.replace_and_mark_text_in_range(range_utf16, new_text, new_selected_range)
    }

    /// Has the view clear the marked range: what becomes of the view is what
    /// its `unmark_text` does.
    pub fn unmark_text(&mut self)
        ensures
            V::unmark_text_ensures(old(self).view(), final(self).view()),
            final(self).element_bounds() == old(self).element_bounds(),
    {
        self.view.unmark_text()
    }

    /// Asks the view where the text in `range_utf16` is drawn: what comes
    /// back, and what becomes of the view, is what the view's
    /// `bounds_for_range` does when handed `range_utf16` and the bounds of
    /// the element that this handler was made with.
    pub fn bounds_for_range(&mut self, range_utf16: Range<usize>) -> (r: Option<Bounds>)
        ensures
            V::bounds_for_range_ensures(
                old(self).view(),
                range_utf16,
                old(self).element_bounds(),
                final(self).view(),
                r,
            ),
            final(self).element_bounds() == old(self).element_bounds(),
    {
        self.view.bounds_for_range(range_utf16, self.element_bounds)
    }
}

} // verus!
