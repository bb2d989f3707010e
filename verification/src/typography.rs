//! The font registry paragraphs are shaped against.
//!
//! A typography context holds registered font blobs with optional family
//! aliases.  An alias crosses the engine boundary as a C string, so an alias
//! with an embedded NUL byte is rejected before it ever reaches the engine.

use vstd::prelude::*;
use vstd::string::StringSliceAdditionalSpecFns;

use crate::error::Error;
use crate::filters::clone_copied;

verus! {

/// One registered font: its raw bytes and the optional family alias it was
/// registered under.
#[derive(Debug)]
pub struct RegisteredFont {
    pub data: Vec<u8>,
    pub family_name_alias: Option<String>,
}

/// The mathematical value of a [`RegisteredFont`].
pub ghost struct RegisteredFontV {
    pub data: Seq<u8>,
    pub family_name_alias: Option<Seq<char>>,
}

impl View for RegisteredFont {
    type V = RegisteredFontV;

    open spec fn view(&self) -> RegisteredFontV {
        RegisteredFontV {
            data: self.data@,
            family_name_alias: match self.family_name_alias {
                Some(s) => Some(s@),
                None => None,
            },
        }
    }
}

/// A font registry: the fonts registered so far, in registration order.
#[derive(Debug)]
pub struct TypographyContext {
    pub fonts: Vec<RegisteredFont>,
}

impl View for TypographyContext {
    type V = Seq<RegisteredFontV>;

    open spec fn view(&self) -> Seq<RegisteredFontV> {
        self.fonts@.map(|i: int, f: RegisteredFont| f@)
    }
}

impl Clone for TypographyContext {
    fn clone(&self) -> (r: Self)
        ensures
            r@ == self@,
    {
        let mut fonts: Vec<RegisteredFont> = Vec::new();
        let mut i: usize = 0;
        while i < self.fonts.len()
            invariant
                i <= self.fonts.len(),
                fonts@.len() == i,
                forall|j: int| 0 <= j < i ==> #[trigger] fonts@[j]@ == self.fonts@[j]@,
            decreases self.fonts.len() - i,
        {
            let f = &self.fonts[i];
            let copy = RegisteredFont {
                data: clone_copied(&f.data),
                family_name_alias: match &f.family_name_alias {
                    Some(s) => Some(s.clone()),
                    None => None,
                },
            };
            assert(copy@ == self.fonts@[i as int]@);
            fonts.push(copy);
            i = i + 1;
        }
        proof {
            assert(fonts@.map(|j: int, g: RegisteredFont| g@) =~= self.fonts@.map(
                |j: int, g: RegisteredFont| g@,
            ));
        }
        TypographyContext { fonts }
    }
}

impl Default for TypographyContext {
    /// A fresh registry with no custom fonts: only the fonts the engine
    /// finds on the system are available.
    fn default() -> (r: Self)
        ensures
            r@ == Seq::<RegisteredFontV>::empty(),
    {
        TypographyContext { fonts: Vec::new() }
    }
}

/// Whether a byte sequence contains a NUL byte, which no C string can carry.
pub open spec fn has_nul_byte(s: Seq<u8>) -> bool {
    s.contains(0u8)
}

/// Report whether a string's bytes contain a NUL.
fn str_has_nul_byte(s: &str) -> (r: bool)
    ensures
        r == has_nul_byte(s.spec_bytes()),
{
    let bytes = s.as_bytes();
    let mut i: usize = 0;
    while i < bytes.len()
        invariant
            i <= bytes@.len(),
            bytes@ == s.spec_bytes(),
            forall|j: int| 0 <= j < i ==> bytes@[j] != 0u8,
        decreases bytes@.len() - i,
    {
        if bytes[i] == 0 {
            return true;
        }
        i = i + 1;
    }
    false
}

impl TypographyContext {
    /// Register a font from its raw bytes, optionally under a family alias.
    ///
    /// Registration succeeds exactly when the alias, if given, carries no
    /// embedded NUL byte; the font is then appended to the registry.  With
    /// no alias the family name encoded in the font data itself applies.
    pub fn register_font(&mut self, font_data: Vec<u8>, family_name_alias: Option<&str>) -> (r:
        Result<(), Error>)
        ensures
            r is Ok <==> match family_name_alias {
                Some(alias) => !has_nul_byte(alias.spec_bytes()),
                None => true,
            },
            r is Ok ==> final(self)@ == old(self)@.push(
                RegisteredFontV {
                    data: font_data@,
                    family_name_alias: match family_name_alias {
                        Some(alias) => Some(alias@),
                        None => None,
                    },
                },
            ),
            r is Err ==> final(self)@ == old(self)@ && r == Result::<(), Error>::Err(
                Error::EmbeddedNul,
            ),
    {
        let alias: Option<String> = match family_name_alias {
            Some(alias) => {
                if str_has_nul_byte(alias) {
                    return Err(Error::EmbeddedNul);
                }
                Some(alias.to_owned())
            },
            None => None,
        };
        let font = RegisteredFont { data: font_data, family_name_alias: alias };
        proof {
            assert(old(self)@.push(font@) =~= self.fonts@.push(font).map(
                |i: int, f: RegisteredFont| f@,
            ));
        }
        self.fonts.push(font);
        Ok(())
    }

    /// The number of fonts registered so far.
    pub fn font_count(&self) -> (r: usize)
        ensures
            r == self@.len(),
    {
        self.fonts.len()
    }
}

} // verus!
