//! Text overlay settings as set one parameter at a time: a top line, a
//! bottom line, one font and one font size for both.

use vstd::prelude::*;
use crate::options::{matches_exactly, parse_u32, spec_parse_u32, Font};

verus! {

/// Why a text parameter was refused; each names what was refused.
#[derive(Debug, Clone, PartialEq, Eq)]
pub enum ParameterError {
    /// A font value that names no font.
    UnknownFont(String),
    /// A font size value that is not a `u32` in decimal.
    InvalidFontSize(String),
    /// A key that names no parameter.
    InvalidParameter(String),
}

/// The font a value names: exactly `impact`.
pub open spec fn spec_font_named(s: Seq<char>) -> Option<Font> {
    if s == "impact"@ { Some(Font::Impact) } else { None }
}

/// Both lines of overlay text and how they are set.
#[derive(Debug, Clone)]
pub struct TextParameters {
    pub top_text: Option<String>,
    pub bottom_text: Option<String>,
    pub font: Font,
    pub font_size: u32,
}

impl Default for TextParameters {
    fn default() -> (r: TextParameters)
        ensures
            r.top_text is None,
            r.bottom_text is None,
            r.font == Font::Impact,
            r.font_size == 32,
    {
        TextParameters { top_text: None, bottom_text: None, font: Font::Impact, font_size: 32 }
    }
}

impl TextParameters {
    /// Sets the parameter `key` from its written `value`: `top_text` and
    /// `bottom_text` take the value as their line, `font` takes a font name
    /// (`impact`), `font_size` a `u32` in decimal. A refused value or an
    /// unknown key changes nothing.
    pub fn set_from_params(&mut self, key: String, value: String) -> (r: Result<(), ParameterError>)
        ensures
            key@ == "top_text"@ ==> r is Ok && final(self).top_text is Some && final(self).top_text->0@ == value@
                && final(self).bottom_text == old(self).bottom_text && final(self).font == old(self).font
                && final(self).font_size == old(self).font_size,
            key@ == "bottom_text"@ ==> r is Ok && final(self).bottom_text is Some && final(self).bottom_text->0@ == value@
                && final(self).top_text == old(self).top_text && final(self).font == old(self).font
                && final(self).font_size == old(self).font_size,
            key@ == "font"@ && spec_font_named(value@) is Some ==> r is Ok && final(self).font
                == spec_font_named(value@)->0 && final(self).top_text == old(self).top_text
                && final(self).bottom_text == old(self).bottom_text && final(self).font_size == old(self).font_size,
            key@ == "font"@ && spec_font_named(value@) is None ==> r is Err && r->Err_0 is UnknownFont
                && r->Err_0->UnknownFont_0@ == value@ && *final(self) == *old(self),
            key@ == "font_size"@ && spec_parse_u32(value@) is Some ==> r is Ok && final(self).font_size
                == spec_parse_u32(value@)->0 && final(self).top_text == old(self).top_text
                && final(self).bottom_text == old(self).bottom_text && final(self).font == old(self).font,
            key@ == "font_size"@ && spec_parse_u32(value@) is None ==> r is Err && r->Err_0 is InvalidFontSize
                && r->Err_0->InvalidFontSize_0@ == value@ && *final(self) == *old(self),
            key@ != "top_text"@ && key@ != "bottom_text"@ && key@ != "font"@ && key@ != "font_size"@ ==> r is Err
                && r->Err_0 is InvalidParameter && r->Err_0->InvalidParameter_0@ == key@ && *final(self)
                == *old(self),
    {
        proof {
            reveal_strlit("top_text");
            reveal_strlit("bottom_text");
            reveal_strlit("font");
            reveal_strlit("font_size");
            assert("top_text"@[0] != "bottom_text"@[0] && "top_text"@[0] != "font"@[0] && "bottom_text"@[0] != "font"@[0]);
            assert("top_text"@[0] != "font_size"@[0] && "bottom_text"@[0] != "font_size"@[0]);
            assert("font"@.len() != "font_size"@.len());
        }
        if matches_exactly(key.as_str(), "top_text") {
            self.top_text = Some(value);
            Ok(())
        } else if matches_exactly(key.as_str(), "bottom_text") {
            self.bottom_text = Some(value);
            Ok(())
        } else if matches_exactly(key.as_str(), "font") {
            if matches_exactly(value.as_str(), "impact") {
                self.font = Font::Impact;
                Ok(())
            } else {
                Err(ParameterError::UnknownFont(value))
            }
        } else if matches_exactly(key.as_str(), "font_size") {
            match parse_u32(value.as_str()) {
                Some(n) => {
                    self.font_size = n;
                    Ok(())
                },
                None => Err(ParameterError::InvalidFontSize(value)),
            }
        } else {
            Err(ParameterError::InvalidParameter(key))
        }
    }
}

} // verus!
