use vstd::prelude::*;

verus! {

/// The two mutually exclusive modal-editing switches of the settings file.
#[derive(Clone, Copy, Debug, PartialEq, Eq, Structural, Default)]
pub struct ModalEditingSettings {
    pub vim_mode: Option<bool>,
    pub helix_mode: Option<bool>,
}

/// Both switches are explicitly on.
pub open spec fn both_enabled(s: ModalEditingSettings) -> bool {
    s.vim_mode == Some(true) && s.helix_mode == Some(true)
}

/// The settings after writing `value` to `vim_mode`: turning it on switches
/// an enabled `helix_mode` off.
pub open spec fn vim_written(s: ModalEditingSettings, value: Option<bool>) -> ModalEditingSettings {
    ModalEditingSettings {
        vim_mode: value,
        helix_mode: if value == Some(true) && s.helix_mode == Some(true) {
            Some(false)
        } else {
            s.helix_mode
        },
    }
}

/// The settings after writing `value` to `helix_mode`: turning it on
/// switches an enabled `vim_mode` off.
pub open spec fn helix_written(s: ModalEditingSettings, value: Option<bool>) -> ModalEditingSettings {
    ModalEditingSettings {
        vim_mode: if value == Some(true) && s.vim_mode == Some(true) {
            Some(false)
        } else {
            s.vim_mode
        },
        helix_mode: value,
    }
}

/// Writes `vim_mode`; turning it on switches an enabled `helix_mode` off.
pub fn write_vim_mode_inner(settings: &mut ModalEditingSettings, value: Option<bool>)
    ensures
        *final(settings) == vim_written(*old(settings), value),
{
    if value == Some(true) && settings.helix_mode == Some(true) {
        settings.helix_mode = Some(false);
    }
    settings.vim_mode = value;
}

/// Writes `helix_mode`; turning it on switches an enabled `vim_mode` off.
pub fn write_helix_mode_inner(settings: &mut ModalEditingSettings, value: Option<bool>)
    ensures
        *final(settings) == helix_written(*old(settings), value),
{
    if value == Some(true) && settings.vim_mode == Some(true) {
        settings.vim_mode = Some(false);
    }
    settings.helix_mode = value;
}

/// After any write of either switch the two are never both on, and the
/// switch written holds the value written.
pub proof fn lemma_modes_exclusive(s: ModalEditingSettings, value: Option<bool>)
    ensures
        !both_enabled(vim_written(s, value)),
        !both_enabled(helix_written(s, value)),
        vim_written(s, value).vim_mode == value,
        helix_written(s, value).helix_mode == value,
{
}

/// Writing a switch that is not being turned on leaves the other untouched.
pub proof fn lemma_other_mode_kept(s: ModalEditingSettings, value: Option<bool>)
    requires
        value != Some(true),
    ensures
        vim_written(s, value).helix_mode == s.helix_mode,
        helix_written(s, value).vim_mode == s.vim_mode,
{
}

} // verus!
