//! The application state machine: which event causes which effect, how the
//! loaded icon buffer and its preview list evolve, and when saving is
//! offered.
//!
//! The surrounding program owns the window and performs the effects (file
//! dialogs, the SVG conversion, reading and writing files); it feeds the
//! resulting bytes back in as a `Message`.

use vstd::prelude::*;
use vstd::string::StringExecFns;
use crate::icons::IcoDecodeError;
use crate::icons::Preview;
use crate::icons::build_previews;
use crate::icons::decode_icon_dir;
use crate::icons::icon_dir_of;
use crate::icons::previews_match;

verus! {

/// A user-interface event: one per button, and one for the arrival of a new
/// ICO buffer (`generated` records whether the bytes were produced by the
/// SVG conversion this session, as opposed to loaded from an existing file).
pub enum Message {
    SelectSvg,
    OpenIco,
    SaveIcon,
    IcoLoaded(Vec<u8>, bool),
}

/// The outside work a state transition asks for: run the SVG picker and
/// convert the chosen file, run the ICO picker and read the chosen file,
/// run the save dialog and write the given bytes, or nothing.
pub enum Effect {
    PickSvg,
    PickIco,
    SaveIco(Vec<u8>),
    Nothing,
}

/// The pixel sizes requested for a generated icon, largest first: one ICO
/// entry is rasterized for each.
pub fn conversion_sizes() -> (sizes: Vec<u16>)
    ensures
        sizes@ == seq![256u16, 128u16, 64u16, 48u16, 32u16, 24u16, 16u16],
{
    let mut sizes: Vec<u16> = Vec::new();
    sizes.push(256);
    sizes.push(128);
    sizes.push(64);
    sizes.push(48);
    sizes.push(32);
    sizes.push(24);
    sizes.push(16);
    assert(sizes@ =~= seq![256u16, 128u16, 64u16, 48u16, 32u16, 24u16, 16u16]);
    sizes
}

/// The application state: the current ICO buffer, if any; the preview list
/// derived from it; whether the buffer was generated this session (which
/// gates the save action); and whether the system theme is dark.
pub struct SvgToIcoApp {
    pub ico_data: Option<Vec<u8>>,
    pub previews: Vec<Preview>,
    pub is_generated: bool,
    pub is_dark: bool,
}

impl SvgToIcoApp {
    /// Without a loaded buffer there is nothing to preview and nothing to
    /// save.
    pub open spec fn wf(self) -> bool {
        self.ico_data is None ==> self.previews@.len() == 0 && !self.is_generated
    }

    /// The initial state: no buffer, no previews, saving not offered.
    pub fn new(is_dark: bool) -> (app: SvgToIcoApp)
        ensures
            app.wf(),
            app.ico_data is None,
            app.previews@.len() == 0,
            !app.is_generated,
            app.is_dark == is_dark,
    {
        SvgToIcoApp { ico_data: None, previews: Vec::new(), is_generated: false, is_dark }
    }

    /// The window title.
    pub fn title(&self) -> (t: String)
        ensures
            t@ == "Rusty SVG2ICO"@,
    {
        String::from_str("Rusty SVG2ICO")
    }

    /// Saving is offered exactly when a buffer is present and was generated
    /// this session.
    pub fn save_available(&self) -> (b: bool)
        ensures
            b == (self.ico_data is Some && self.is_generated),
    {
        self.ico_data.is_some() && self.is_generated
    }

    /// Applies one event to the state and says which outside work to do
    /// next. Button presses leave the state alone and ask for their dialog;
    /// an arriving buffer replaces the state's buffer and rebuilds the
    /// preview list, unless it is empty (a cancelled dialog) or does not
    /// decode as an icon directory.
    pub fn update(&mut self, message: Message) -> (r: Result<Effect, IcoDecodeError>)
        requires
            old(self).wf(),
        ensures
            final(self).wf(),
            (message matches Message::SelectSvg ==> *final(self) == *old(self) && r matches Ok(
                Effect::PickSvg,
            )),
            (message matches Message::OpenIco ==> *final(self) == *old(self) && r matches Ok(
                Effect::PickIco,
            )),
            (message matches Message::SaveIcon ==> *final(self) == *old(self) && (match old(
                self,
            ).ico_data {
                Some(d) => r matches Ok(Effect::SaveIco(b)) && b@ == d@,
                None => r matches Ok(Effect::Nothing),
            })),
            (message matches Message::IcoLoaded(data, generated) ==> (if data@.len() == 0 {
                *final(self) == *old(self) && r matches Ok(Effect::Nothing)
            } else {
                match icon_dir_of(data@) {
                    Some(entries) => {
                        &&& r matches Ok(Effect::Nothing)
                        &&& final(self).ico_data matches Some(d) && d@ == data@
                        &&& final(self).is_generated == generated
                        &&& previews_match(final(self).previews@, entries)
                        &&& final(self).is_dark == old(self).is_dark
                    },
                    None => *final(self) == *old(self) && r matches Err(IcoDecodeError),
                }
            })),
    {
        match message {
            Message::SelectSvg => Ok(Effect::PickSvg),
            Message::OpenIco => Ok(Effect::PickIco),
            Message::SaveIcon => {
                match &self.ico_data {
                    Some(data) => {
                        let bytes = vstd::slice::slice_to_vec(data.as_slice());
                        Ok(Effect::SaveIco(bytes))
                    },
                    None => Ok(Effect::Nothing),
                }
            },
            Message::IcoLoaded(data, generated) => {
                if data.len() != 0 {
                    match decode_icon_dir(&data) {
                        Ok(entries) => {
                            self.previews = build_previews(&entries);
                            self.ico_data = Some(data);
                            self.is_generated = generated;
                            Ok(Effect::Nothing)
                        },
                        Err(e) => Err(e),
                    }
                } else {
                    Ok(Effect::Nothing)
                }
            },
        }
    }
}

} // verus!
