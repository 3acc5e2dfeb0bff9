//! A lazy, composable text-rendering engine. A [`Description`] owns an
//! ordered list of (possibly multi-line) text elements together with two
//! orthogonal presentation settings, an indent mode and a list style, and
//! renders them only on demand. Rendering places exactly one line break
//! between elements and never appends a trailing line break.

use vstd::prelude::*;
use vstd::string::StringExecFns;
use crate::text::{
    spec_digit_count, spec_nat_to_string, spec_spaces, digit_count, usize_to_string,
    append_spaces, spaces_string, push_char, lemma_digit_count_at_most_20,
};

verus! {

/// Which lines of the rendered output receive the base indentation.
#[derive(Clone, Copy, PartialEq, Eq, Structural, Debug)]
pub enum IndentMode {
    NoIndent,
    EveryLine,
    AllExceptFirstLine,
}

/// Which marker, if any, is placed in front of each element.
#[derive(Clone, Copy, PartialEq, Eq, Structural, Debug)]
pub enum ListStyle {
    NoList,
    Bullet,
    Enumerate,
}

/// Number of spaces used to indent lines when no alignment is required.
pub const INDENTATION_SIZE: usize = 2;

/// The four derived quantities that drive rendering.
pub struct IndentationSizes {
    /// Indentation of the very first rendered line of the whole structure.
    pub first_line_indent: usize,
    /// Indentation of the first line of every element except the very first.
    pub first_line_of_element_indent: usize,
    /// Digits needed to right-align the largest zero-based element index.
    pub enumeration_padding: usize,
    /// Indentation of every line of an element after its own first line.
    pub other_line_indent: usize,
}

/// An ordered list of text elements plus lazy presentation settings.
pub struct Description {
    pub elements: Vec<String>,
    pub indent_mode: IndentMode,
    pub list_style: ListStyle,
}

pub open spec fn spec_first_line_indent(mode: IndentMode) -> nat {
    if mode is EveryLine {
        INDENTATION_SIZE as nat
    } else {
        0
    }
}

pub open spec fn spec_first_line_of_element_indent(mode: IndentMode) -> nat {
    if mode is NoIndent {
        0
    } else {
        INDENTATION_SIZE as nat
    }
}

/// Digit count of the largest zero-based index; 1 when there are no two
/// elements, which guards the digit count of a negative value.
pub open spec fn spec_enumeration_padding(n_elements: nat) -> nat {
    if n_elements > 1 {
        spec_digit_count((n_elements - 1) as nat)
    } else {
        1
    }
}

/// Width of the list marker: nothing, `"* "`, or a right-aligned index
/// followed by `". "`.
pub open spec fn spec_marker_width(style: ListStyle, padding: nat) -> nat {
    match style {
        ListStyle::NoList => 0,
        ListStyle::Bullet => 2,
        ListStyle::Enumerate => padding + 2,
    }
}

pub open spec fn spec_other_line_indent(mode: IndentMode, style: ListStyle, n_elements: nat) -> nat {
    spec_first_line_of_element_indent(mode) + spec_marker_width(
        style,
        spec_enumeration_padding(n_elements),
    )
}

/// The decimal representation of `idx`, right-aligned with spaces to
/// `padding` characters.
pub open spec fn spec_right_aligned(idx: nat, padding: nat) -> Seq<char> {
    if spec_digit_count(idx) < padding {
        spec_spaces((padding - spec_digit_count(idx)) as nat) + spec_nat_to_string(idx)
    } else {
        spec_nat_to_string(idx)
    }
}

/// The marker placed in front of the first line of element `idx`.
pub open spec fn spec_marker(style: ListStyle, padding: nat, idx: nat) -> Seq<char> {
    match style {
        ListStyle::NoList => Seq::empty(),
        ListStyle::Bullet => seq!['*', ' '],
        ListStyle::Enumerate => spec_right_aligned(idx, padding) + seq!['.', ' '],
    }
}

/// `s` with `indentation` inserted after every line break.
pub open spec fn spec_indent_after_newlines(s: Seq<char>, indentation: Seq<char>) -> Seq<char>
    decreases s.len(),
{
    if s.len() == 0 {
        Seq::empty()
    } else if s[0] == '\n' {
        seq!['\n'] + indentation + spec_indent_after_newlines(s.drop_first(), indentation)
    } else {
        seq![s[0]] + spec_indent_after_newlines(s.drop_first(), indentation)
    }
}

/// The rendering of element `idx` out of `n_elements`: leading indentation,
/// then the list marker, then the element's lines with every line after the
/// first indented by the other-line indentation.
pub open spec fn spec_render_element(
    element: Seq<char>,
    idx: nat,
    n_elements: nat,
    mode: IndentMode,
    style: ListStyle,
) -> Seq<char> {
    spec_spaces(
        if idx == 0 {
            spec_first_line_indent(mode)
        } else {
            spec_first_line_of_element_indent(mode)
        },
    ) + spec_marker(style, spec_enumeration_padding(n_elements), idx)
        + spec_indent_after_newlines(
        element,
        spec_spaces(spec_other_line_indent(mode, style, n_elements)),
    )
}

/// The rendering of the first `k` elements, separated by single line breaks.
pub open spec fn spec_render_up_to(
    elements: Seq<Seq<char>>,
    k: int,
    mode: IndentMode,
    style: ListStyle,
) -> Seq<char>
    decreases k,
{
    if k <= 0 {
        Seq::empty()
    } else if k == 1 {
        spec_render_element(elements[0], 0, elements.len(), mode, style)
    } else {
        spec_render_up_to(elements, k - 1, mode, style) + seq!['\n'] + spec_render_element(
            elements[k - 1],
            (k - 1) as nat,
            elements.len(),
            mode,
            style,
        )
    }
}

/// The full rendering of `elements` under the given settings.
pub open spec fn spec_render_parts(
    elements: Seq<Seq<char>>,
    mode: IndentMode,
    style: ListStyle,
) -> Seq<char> {
    spec_render_up_to(elements, elements.len() as int, mode, style)
}

/// The elements joined by single line breaks, with nothing added.
pub open spec fn spec_join_with_newlines(elements: Seq<Seq<char>>) -> Seq<char>
    decreases elements.len(),
{
    if elements.len() == 0 {
        Seq::empty()
    } else if elements.len() == 1 {
        elements[0]
    } else {
        spec_join_with_newlines(elements.drop_last()) + seq!['\n'] + elements.last()
    }
}

/// The marker placed in front of any element of the list is exactly as wide
/// as the marker width that the continuation-line indentation accounts for:
/// continuation lines align under the text after the marker, not under the
/// marker itself.
pub proof fn lemma_marker_is_aligned(style: ListStyle, n_elements: nat, idx: nat)
    requires
        idx < n_elements,
    ensures
        spec_marker(style, spec_enumeration_padding(n_elements), idx).len() == spec_marker_width(
            style,
            spec_enumeration_padding(n_elements),
        ),
{
    let padding = spec_enumeration_padding(n_elements);
    if style is Enumerate {
        crate::text::lemma_nat_to_string_len(idx);
        if n_elements > 1 {
            crate::text::lemma_digit_count_monotone(idx, (n_elements - 1) as nat);
        }
        if spec_digit_count(idx) < padding {
            crate::text::lemma_spaces_len((padding - spec_digit_count(idx)) as nat);
        }
    }
}

/// Inserting an empty indentation after line breaks changes nothing.
pub proof fn lemma_indent_after_newlines_empty(s: Seq<char>)
    ensures
        spec_indent_after_newlines(s, Seq::empty()) == s,
    decreases s.len(),
{
    if s.len() == 0 {
        assert(spec_indent_after_newlines(s, Seq::empty()) =~= s);
    } else {
        lemma_indent_after_newlines_empty(s.drop_first());
        assert(spec_indent_after_newlines(s, Seq::empty()) =~= s);
    }
}

proof fn lemma_plain_render_up_to(elements: Seq<Seq<char>>, k: int)
    requires
        0 <= k <= elements.len(),
    ensures
        spec_render_up_to(elements, k, IndentMode::NoIndent, ListStyle::NoList)
            == spec_join_with_newlines(elements.take(k)),
    decreases k,
{
    if k <= 0 {
    } else {
        lemma_plain_render_up_to(elements, k - 1);
        lemma_indent_after_newlines_empty(elements[k - 1]);
        assert(spec_render_element(
            elements[k - 1],
            (k - 1) as nat,
            elements.len(),
            IndentMode::NoIndent,
            ListStyle::NoList,
        ) =~= elements[k - 1]);
        assert(elements.take(k).drop_last() =~= elements.take(k - 1));
        assert(elements.take(k).last() == elements[k - 1]);
        assert(spec_render_up_to(elements, k, IndentMode::NoIndent, ListStyle::NoList)
            =~= spec_join_with_newlines(elements.take(k)));
    }
}

/// With no indent mode and no list style, rendering is exactly the elements
/// joined by single line breaks: no leading or trailing line break and no
/// added indentation.
pub proof fn lemma_plain_render_is_join(elements: Seq<Seq<char>>)
    ensures
        spec_render_parts(elements, IndentMode::NoIndent, ListStyle::NoList)
            == spec_join_with_newlines(elements),
{
    lemma_plain_render_up_to(elements, elements.len() as int);
    assert(elements.take(elements.len() as int) =~= elements);
}

/// A description of a single element with default settings renders as that
/// element's text, unchanged.
pub proof fn lemma_render_single_plain(element: Seq<char>)
    ensures
        spec_render_parts(seq![element], IndentMode::NoIndent, ListStyle::NoList) == element,
{
    lemma_plain_render_is_join(seq![element]);
}

impl Description {
    /// The elements as mathematical sequences of characters.
    pub open spec fn spec_elements(&self) -> Seq<Seq<char>> {
        self.elements.deep_view()
    }

    /// What `render` returns: a pure function of the elements, the indent
    /// mode and the list style.
    pub open spec fn spec_render(&self) -> Seq<char> {
        spec_render_parts(self.spec_elements(), self.indent_mode, self.list_style)
    }

    /// A description of the given elements with no indentation and no list
    /// style.
    pub fn new(elements: Vec<String>) -> (d: Description)
        ensures
            d.elements == elements,
            d.indent_mode is NoIndent,
            d.list_style is NoList,
    {
        Description { elements, indent_mode: IndentMode::NoIndent, list_style: ListStyle::NoList }
    }

    /// A description of a single element with default settings; it renders
    /// as exactly that element.
    pub fn text(element: String) -> (d: Description)
        ensures
            d.spec_elements() =~= seq![element@],
            d.indent_mode is NoIndent,
            d.list_style is NoList,
            d.spec_render() == element@,
    {
        let ghost view = element@;
        let d = Description {
            elements: vec![element],
            indent_mode: IndentMode::NoIndent,
            list_style: ListStyle::NoList,
        };
        proof {
            assert(d.spec_elements() =~= seq![view]);
            lemma_render_single_plain(view);
        }
        d
    }

    /// Indents every line of every element; performed lazily when `self` is
    /// rendered.
    pub fn indent(self) -> (d: Self)
        ensures
            d.elements == self.elements,
            d.indent_mode is EveryLine,
            d.list_style == self.list_style,
    {
        Self { indent_mode: IndentMode::EveryLine, ..self }
    }

    /// Indents every line except the very first one; useful when the first
    /// line has already been indented in the surrounding output.
    pub fn indent_except_first_line(self) -> (d: Self)
        ensures
            d.elements == self.elements,
            d.indent_mode is AllExceptFirstLine,
            d.list_style == self.list_style,
    {
        Self { indent_mode: IndentMode::AllExceptFirstLine, ..self }
    }

    /// Bullet-lists the elements; each element, not each line, receives one
    /// `"* "` marker.
    pub fn bullet_list(self) -> (d: Self)
        ensures
            d.elements == self.elements,
            d.indent_mode == self.indent_mode,
            d.list_style is Bullet,
    {
        Self { list_style: ListStyle::Bullet, ..self }
    }

    /// Enumerates the elements; each element receives a right-aligned
    /// zero-based index followed by `". "`.
    pub fn enumerate(self) -> (d: Self)
        ensures
            d.elements == self.elements,
            d.indent_mode == self.indent_mode,
            d.list_style is Enumerate,
    {
        Self { list_style: ListStyle::Enumerate, ..self }
    }

    /// Returns the number of elements.
    pub fn len(&self) -> (n: usize)
        ensures
            n == self.spec_elements().len(),
    {
        self.elements.len()
    }

    /// Returns whether the list of elements is empty.
    pub fn is_empty(&self) -> (b: bool)
        ensures
            b == (self.spec_elements().len() == 0),
    {
        self.elements.is_empty()
    }

    /// Computes the four derived indentation quantities that drive
    /// rendering: the first-line indent, the per-element first-line indent,
    /// the enumeration padding, and the continuation-line indent.
    pub fn indentation_sizes(&self) -> (sz: IndentationSizes)
        ensures
            sz.first_line_indent == spec_first_line_indent(self.indent_mode),
            sz.first_line_of_element_indent == spec_first_line_of_element_indent(self.indent_mode),
            sz.enumeration_padding == spec_enumeration_padding(self.elements@.len()),
            sz.other_line_indent == spec_other_line_indent(
                self.indent_mode,
                self.list_style,
                self.elements@.len(),
            ),
    {
        let first_line_indent: usize = match self.indent_mode {
            IndentMode::EveryLine => INDENTATION_SIZE,
            _ => 0,
        };
        let first_line_of_element_indent: usize = match self.indent_mode {
            IndentMode::NoIndent => 0,
            _ => INDENTATION_SIZE,
        };
        let n = self.elements.len();
        let enumeration_padding: usize = if n > 1 {
            digit_count(n - 1)
        } else {
            1
        };
        proof {
            if n > 1 {
                lemma_digit_count_at_most_20((n - 1) as nat);
            }
        }
        let other_line_indent: usize = first_line_of_element_indent + match self.list_style {
            ListStyle::NoList => 0,
            ListStyle::Bullet => 2,
            ListStyle::Enumerate => enumeration_padding + 2,
        };
        IndentationSizes {
            first_line_indent,
            first_line_of_element_indent,
            enumeration_padding,
            other_line_indent,
        }
    }

    /// Renders the elements: one line break between elements, none after the
    /// last; the first line of element `i` carries its indentation and list
    /// marker, and each following line of the element carries the
    /// continuation indentation.
    pub fn render(&self) -> (out: String)
        ensures
            out@ == self.spec_render(),
    {
        let sz = self.indentation_sizes();
        let other_indent = spaces_string(sz.other_line_indent);
        let mut out = String::new();
        let n = self.elements.len();
        let mut i: usize = 0;
        while i < n
            invariant
                i <= n,
                n == self.elements@.len(),
                sz.first_line_indent == spec_first_line_indent(self.indent_mode),
                sz.first_line_of_element_indent == spec_first_line_of_element_indent(
                    self.indent_mode,
                ),
                sz.enumeration_padding == spec_enumeration_padding(n as nat),
                other_indent@ == spec_spaces(
                    spec_other_line_indent(self.indent_mode, self.list_style, n as nat),
                ),
                out@ == spec_render_up_to(
                    self.spec_elements(),
                    i as int,
                    self.indent_mode,
                    self.list_style,
                ),
            decreases n - i,
        {
            if i > 0 {
                push_char(&mut out, '\n');
            }
            if i == 0 {
                append_spaces(&mut out, sz.first_line_indent);
            } else {
                append_spaces(&mut out, sz.first_line_of_element_indent);
            }
            match self.list_style {
                ListStyle::NoList => {},
                ListStyle::Bullet => {
                    out.append("* ");
                    proof {
                        reveal_strlit("* ");
                        assert(("* ")@ =~= seq!['*', ' ']);
                    }
                },
                ListStyle::Enumerate => {
                    append_right_aligned(&mut out, i, sz.enumeration_padding);
                    out.append(". ");
                    proof {
                        reveal_strlit(". ");
                        assert((". ")@ =~= seq!['.', ' ']);
                    }
                },
            }
            let element: &String = &self.elements[i];
            append_indented(&mut out, element.as_str(), other_indent.as_str());
            proof {
                assert(self.spec_elements()[i as int] == self.elements@[i as int]@);
                assert(out@ =~= spec_render_up_to(
                    self.spec_elements(),
                    i as int + 1,
                    self.indent_mode,
                    self.list_style,
                ));
            }
            i += 1;
        }
        proof {
            assert(self.spec_elements().len() == self.elements@.len());
        }
        out
    }
}

/// Appends the decimal representation of `idx`, right-aligned with spaces to
/// `padding` characters.
pub fn append_right_aligned(out: &mut String, idx: usize, padding: usize)
    ensures
        final(out)@ == old(out)@ + spec_right_aligned(idx as nat, padding as nat),
{
    let d = digit_count(idx);
    if d < padding {
        append_spaces(out, padding - d);
    }
    let digits = usize_to_string(idx);
    out.append(digits.as_str());
    proof {
        assert(out@ =~= old(out)@ + spec_right_aligned(idx as nat, padding as nat));
    }
}

/// Appends `element` to `out`, inserting `indentation` after every line
/// break of `element`.
pub fn append_indented(out: &mut String, element: &str, indentation: &str)
    ensures
        final(out)@ == old(out)@ + spec_indent_after_newlines(element@, indentation@),
{
    let n = element.unicode_len();
    proof {
        assert(element@.skip(0) =~= element@);
    }
    let mut i: usize = 0;
    while i < n
        invariant
            i <= n,
            n == element@.len(),
            out@ + spec_indent_after_newlines(element@.skip(i as int), indentation@) == old(out)@
                + spec_indent_after_newlines(element@, indentation@),
        decreases n - i,
    {
        let ghost tail = element@.skip(i as int);
        proof {
            assert(tail.len() > 0);
            assert(tail[0] == element@[i as int]);
            assert(tail.drop_first() =~= element@.skip(i as int + 1));
        }
        let c = element.get_char(i);
        if c == '\n' {
            push_char(out, '\n');
            out.append(indentation);
            proof {
                assert(spec_indent_after_newlines(tail, indentation@) =~= seq!['\n'] + indentation@
                    + spec_indent_after_newlines(element@.skip(i as int + 1), indentation@));
                assert(out@ + spec_indent_after_newlines(element@.skip(i as int + 1), indentation@)
                    =~= old(out)@ + spec_indent_after_newlines(element@, indentation@));
            }
        } else {
            push_char(out, c);
            proof {
                assert(spec_indent_after_newlines(tail, indentation@) =~= seq![c]
                    + spec_indent_after_newlines(element@.skip(i as int + 1), indentation@));
                assert(out@ + spec_indent_after_newlines(element@.skip(i as int + 1), indentation@)
                    =~= old(out)@ + spec_indent_after_newlines(element@, indentation@));
            }
        }
        i += 1;
    }
    proof {
        assert(element@.skip(n as int) =~= Seq::<char>::empty());
        assert(out@ =~= old(out)@ + spec_indent_after_newlines(element@, indentation@));
    }
}

} // verus!
