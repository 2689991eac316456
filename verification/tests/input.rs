use debugger_ui::geometry::{px, Bounds, Point, Size};
use debugger_ui::input::{ElementInputHandler, UTF16Selection, ViewInputHandler};
use std::ops::Range;

/// A field of text that takes input; it counts in UTF-16 code units.
struct Field {
    text: Vec<u16>,
    selected: Range<usize>,
    marked: Option<Range<usize>>,
    asked_bounds: Vec<Bounds>,
}

impl Field {
    fn new(text: &str) -> Self {
        let text: Vec<u16> = text.encode_utf16().collect();
        let end = text.len();
        Field { text, selected: end..end, marked: None, asked_bounds: Vec::new() }
    }

    fn text(&self) -> String {
        String::from_utf16(&self.text).unwrap()
    }
}

impl ViewInputHandler for Field {
    fn text_for_range(
        &mut self,
        range: Range<usize>,
        adjusted_range: &mut Option<Range<usize>>,
    ) -> Option<String> {
        let end = range.end.min(self.text.len());
        let start = range.start.min(end);
        if (start..end) != range {
            *adjusted_range = Some(start..end);
        }
        String::from_utf16(&self.text[start..end]).ok()
    }

    fn selected_text_range(&mut self, ignore_disabled_input: bool) -> Option<UTF16Selection> {
        if ignore_disabled_input {
            Some(UTF16Selection { range: self.selected.clone(), reversed: false })
        } else {
            None
        }
    }

    fn marked_text_range(&self) -> Option<Range<usize>> {
        self.marked.clone()
    }

    fn unmark_text(&mut self) {
        self.marked = None;
    }

    fn replace_text_in_range(&mut self, range: Option<Range<usize>>, text: &str) {
        let range = range.or(self.marked.clone()).unwrap_or(self.selected.clone());
        let new: Vec<u16> = text.encode_utf16().collect();
        let end = range.start + new.len();
        self.text.splice(range, new);
        self.selected = end..end;
        self.marked = None;
    }

    fn replace_and_mark_text_in_range(
        &mut self,
        range: Option<Range<usize>>,
        new_text: &str,
        new_selected_range: Option<Range<usize>>,
    ) {
        let range = range.or(self.marked.clone()).unwrap_or(self.selected.clone());
        let new: Vec<u16> = new_text.encode_utf16().collect();
        let start = range.start;
        let end = start + new.len();
        self.text.splice(range, new);
        self.marked = Some(start..end);
        self.selected = match new_selected_range {
            Some(inner) => start + inner.start..start + inner.end,
            None => end..end,
        };
    }

    fn bounds_for_range(&mut self, range_utf16: Range<usize>, element_bounds: Bounds) -> Option<Bounds> {
        self.asked_bounds.push(element_bounds);
        if range_utf16.end <= self.text.len() {
            Some(element_bounds)
        } else {
            None
        }
    }
}

fn bounds() -> Bounds {
    Bounds {
        origin: Point { x: px(10), y: px(20) },
        size: Size { width: px(300), height: px(24) },
    }
}

#[test]
fn input_is_handed_on_to_the_view() {
    let mut handler = ElementInputHandler::new(bounds(), Field::new("héllo"));
    assert_eq!(handler.bounds(), bounds());

    assert_eq!(handler.selected_text_range(false), None);
    assert_eq!(
        handler.selected_text_range(true),
        Some(UTF16Selection { range: 5..5, reversed: false })
    );
    assert_eq!(handler.marked_text_range(), None);

    let mut adjusted = None;
    assert_eq!(handler.text_for_range(1..3, &mut adjusted), Some("él".to_string()));
    assert_eq!(adjusted, None);
    assert_eq!(handler.text_for_range(3..9, &mut adjusted), Some("lo".to_string()));
    assert_eq!(adjusted, Some(3..5));

    handler.replace_and_mark_text_in_range(Some(0..1), "Ha", Some(1..2));
    assert_eq!(handler.marked_text_range(), Some(0..2));
    assert_eq!(
        handler.selected_text_range(true),
        Some(UTF16Selection { range: 1..2, reversed: false })
    );
    handler.unmark_text();
    assert_eq!(handler.marked_text_range(), None);

    handler.replace_text_in_range(Some(0..2), "h");
    let mut adjusted = None;
    assert_eq!(handler.text_for_range(0..5, &mut adjusted), Some("héllo".to_string()));
    handler.replace_text_in_range(None, "!");
    assert_eq!(handler.text_for_range(0..6, &mut adjusted), Some("h!éllo".to_string()));

    // The view is told the bounds of the element.
    assert_eq!(handler.bounds_for_range(0..2), Some(bounds()));
    assert_eq!(handler.bounds_for_range(0..20), None);
    assert_eq!(handler.bounds(), bounds());
}

#[test]
fn field_reads_back() {
    // The field used above works as the test assumes.
    let mut field = Field::new("ab");
    field.replace_text_in_range(None, "c");
    assert_eq!(field.text(), "abc");
    assert!(field.asked_bounds.is_empty());
}
