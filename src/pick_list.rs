//! Display a dropdown list of selectable values.
use vstd::prelude::*;

use crate::length::Length;
use crate::padding::{uniform, Padding};

verus! {

/// The space on every side of a pick list's text, unless set otherwise.
pub const DEFAULT_PADDING: u16 = 5;

/// A widget for selecting a single value from a list of options.
///
/// `F` produces the message for a chosen option; `Font` and `Style` are the
/// font of its text and its look, as the renderer in use defines them.
pub struct PickList<T, F, Font, Style> {
    on_selected: F,
    options: Vec<T>,
    placeholder: Option<String>,
    selected: Option<T>,
    width: Length,
    padding: Padding,
    text_size: Option<u16>,
    font: Font,
    style: Style,
}

impl<T, F, Font, Style> PickList<T, F, Font, Style> {
    /// The function that turns a chosen option into a message.
    pub closed spec fn on_selected_spec(&self) -> F {
        self.on_selected
    }

    /// The options offered, in order.
    pub closed spec fn options_spec(&self) -> Seq<T> {
        self.options@
    }

    /// The text shown while nothing is selected, if any.
    pub closed spec fn placeholder_spec(&self) -> Option<Seq<char>> {
        match self.placeholder {
            Some(text) => Some(text@),
            None => None,
        }
    }

    /// The value currently selected, if any.
    pub closed spec fn selected_spec(&self) -> Option<T> {
        self.selected
    }

    /// The width the pick list asks for.
    pub closed spec fn width_spec(&self) -> Length {
        self.width
    }

    /// The space around the text.
    pub closed spec fn padding_spec(&self) -> Padding {
        self.padding
    }

    /// The text size, where one was set.
    pub closed spec fn text_size_spec(&self) -> Option<u16> {
        self.text_size
    }

    /// The font of the text.
    pub closed spec fn font_spec(&self) -> Font {
        self.font
    }

    /// The look of the pick list.
    pub closed spec fn style_spec(&self) -> Style {
        self.style
    }

    /// Creates a new [`PickList`] with the given list of options, the current
    /// selected value, and the function that produces the message when an
    /// option is selected.
    ///
    /// It shrinks to its content, has no placeholder and no text size of its
    /// own, [`DEFAULT_PADDING`] on every side, and the default font and style.
    pub fn new(options: Vec<T>, selected: Option<T>, on_selected: F) -> (r: Self) where
        Font: Default,
        Style: Default,
        ensures
            r.options_spec() == options@,
            r.selected_spec() == selected,
            r.on_selected_spec() == on_selected,
            r.placeholder_spec() is None,
            r.width_spec() == Length::Shrink,
            r.padding_spec() == uniform(DEFAULT_PADDING),
            r.text_size_spec() is None,
            call_ensures(Font::default, (), r.font_spec()),
            call_ensures(Style::default, (), r.style_spec()),
    {
        PickList {
            on_selected,
            options,
            placeholder: None,
            selected,
            width: Length::Shrink,
            padding: Padding::new(DEFAULT_PADDING),
            text_size: None,
            font: Font::default(),
            style: Style::default(),
        }
    }

    /// Sets the placeholder of the [`PickList`]: the text shown while nothing
    /// is selected.
    pub fn placeholder(self, placeholder: &str) -> (r: Self)
        ensures
            r.placeholder_spec() == Some(placeholder@),
            r.options_spec() == self.options_spec(),
            r.selected_spec() == self.selected_spec(),
            r.on_selected_spec() == self.on_selected_spec(),
            r.width_spec() == self.width_spec(),
            r.padding_spec() == self.padding_spec(),
            r.text_size_spec() == self.text_size_spec(),
            r.font_spec() == self.font_spec(),
            r.style_spec() == self.style_spec(),
    {
        let mut r = self;
        r.placeholder = Some(placeholder.to_owned());
        r
    }

    /// Sets the width of the [`PickList`].
    pub fn width(self, width: Length) -> (r: Self)
        ensures
            r.width_spec() == width,
            r.options_spec() == self.options_spec(),
            r.selected_spec() == self.selected_spec(),
            r.on_selected_spec() == self.on_selected_spec(),
            r.placeholder_spec() == self.placeholder_spec(),
            r.padding_spec() == self.padding_spec(),
            r.text_size_spec() == self.text_size_spec(),
            r.font_spec() == self.font_spec(),
            r.style_spec() == self.style_spec(),
    {
        let mut r = self;
        r.width = width;
        r
    }

    /// Sets the [`Padding`] of the [`PickList`], from anything that converts
    /// into one.
    pub fn padding<P: Into<Padding>>(self, padding: P) -> (r: Self)
        ensures
            call_ensures(P::into, (padding,), r.padding_spec()),
            r.options_spec() == self.options_spec(),
            r.selected_spec() == self.selected_spec(),
            r.on_selected_spec() == self.on_selected_spec(),
            r.placeholder_spec() == self.placeholder_spec(),
            r.width_spec() == self.width_spec(),
            r.text_size_spec() == self.text_size_spec(),
            r.font_spec() == self.font_spec(),
            r.style_spec() == self.style_spec(),
    {
        let mut r = self;
        r.padding = padding.into();
        r
    }

    /// Sets the text size of the [`PickList`].
    pub fn text_size(self, size: u16) -> (r: Self)
        ensures
            r.text_size_spec() == Some(size),
            r.options_spec() == self.options_spec(),
            r.selected_spec() == self.selected_spec(),
            r.on_selected_spec() == self.on_selected_spec(),
            r.placeholder_spec() == self.placeholder_spec(),
            r.width_spec() == self.width_spec(),
            r.padding_spec() == self.padding_spec(),
            r.font_spec() == self.font_spec(),
            r.style_spec() == self.style_spec(),
    {
        let mut r = self;
        r.text_size = Some(size);
        r
    }

    /// Sets the font of the [`PickList`].
    pub fn font(self, font: Font) -> (r: Self)
        ensures
            r.font_spec() == font,
            r.options_spec() == self.options_spec(),
            r.selected_spec() == self.selected_spec(),
            r.on_selected_spec() == self.on_selected_spec(),
            r.placeholder_spec() == self.placeholder_spec(),
            r.width_spec() == self.width_spec(),
            r.padding_spec() == self.padding_spec(),
            r.text_size_spec() == self.text_size_spec(),
            r.style_spec() == self.style_spec(),
    {
        let mut r = self;
        r.font = font;
        r
    }

    /// Sets the style of the [`PickList`], from anything that converts into
    /// one.
    pub fn style<S: Into<Style>>(self, style: S) -> (r: Self)
        ensures
            call_ensures(S::into, (style,), r.style_spec()),
            r.options_spec() == self.options_spec(),
            r.selected_spec() == self.selected_spec(),
            r.on_selected_spec() == self.on_selected_spec(),
            r.placeholder_spec() == self.placeholder_spec(),
            r.width_spec() == self.width_spec(),
            r.padding_spec() == self.padding_spec(),
            r.text_size_spec() == self.text_size_spec(),
            r.font_spec() == self.font_spec(),
    {
        let mut r = self;
        r.style = style.into();
        r
    }
    /// The width that the pick list asks for when it is laid out.
    pub fn layout_width(&self) -> (r: Length)
        ensures
            r == self.width_spec(),
    {
        self.width
    }

    /// The height that the pick list asks for when it is laid out: always as
    /// little as its text needs.
    pub fn layout_height(&self) -> (r: Length)
        ensures
            r == Length::Shrink,
    {
        Length::Shrink
    }

    /// The options offered, in order.
    pub fn options(&self) -> (r: &[T])
        ensures
            r@ == self.options_spec(),
    {
        self.options.as_slice()
    }

    /// The value currently selected, if any.
    pub fn selected(&self) -> (r: Option<&T>)
        ensures
            r matches Some(v) ==> self.selected_spec() == Some(*v),
            r is None ==> self.selected_spec() is None,
    {
        match &self.selected {
            Some(v) => Some(v),
            None => None,
        }
    }

    /// The text shown while nothing is selected, if any.
    pub fn placeholder_text(&self) -> (r: Option<&str>)
        ensures
            r matches Some(t) ==> self.placeholder_spec() == Some(t@),
            r is None ==> self.placeholder_spec() is None,
    {
        match &self.placeholder {
            Some(text) => Some(text.as_str()),
            None => None,
        }
    }

    /// The space around the text.
    pub fn current_padding(&self) -> (r: Padding)
        ensures
            r == self.padding_spec(),
    {
        self.padding
    }

    /// The text size, where one was set.
    pub fn current_text_size(&self) -> (r: Option<u16>)
        ensures
            r == self.text_size_spec(),
    {
        self.text_size
    }

    /// The font of the text.
    pub fn current_font(&self) -> (r: &Font)
        ensures
            *r == self.font_spec(),
    {
        &self.font
    }

    /// The look of the pick list.
    pub fn current_style(&self) -> (r: &Style)
        ensures
            *r == self.style_spec(),
    {
        &self.style
    }

    /// The message that choosing `option` produces.
    pub fn message_for<Message>(&self, option: T) -> (r: Message) where F: Fn(T) -> Message
        requires
            self.on_selected_spec().requires((option,)),
        ensures
            self.on_selected_spec().ensures((option,), r),
    {
        (self.on_selected)(option)
    }
}

} // verus!
