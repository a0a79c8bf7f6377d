use zed_ui_logic::modal_editing::{write_helix_mode_inner, write_vim_mode_inner, ModalEditingSettings};

#[test]
fn test_write_vim_helix_mode() {
    // Enabling vim mode while `vim_mode` and `helix_mode` are not yet set
    // should only update the `vim_mode` setting.
    let mut settings = ModalEditingSettings::default();
    write_vim_mode_inner(&mut settings, Some(true));
    assert_eq!(settings.vim_mode, Some(true));
    assert_eq!(settings.helix_mode, None);

    // Enabling helix mode while `vim_mode` and `helix_mode` are not yet set
    // should only update the `helix_mode` setting.
    let mut settings = ModalEditingSettings::default();
    write_helix_mode_inner(&mut settings, Some(true));
    assert_eq!(settings.helix_mode, Some(true));
    assert_eq!(settings.vim_mode, None);

    // Disabling helix mode should only touch `helix_mode` setting when
    // `vim_mode` is not set.
    write_helix_mode_inner(&mut settings, Some(false));
    assert_eq!(settings.helix_mode, Some(false));
    assert_eq!(settings.vim_mode, None);

    // Enabling vim mode should update `vim_mode` but leave `helix_mode`
    // untouched.
    write_vim_mode_inner(&mut settings, Some(true));
    assert_eq!(settings.vim_mode, Some(true));
    assert_eq!(settings.helix_mode, Some(false));

    // Enabling helix mode should update `helix_mode` and disable
    // `vim_mode`.
    write_helix_mode_inner(&mut settings, Some(true));
    assert_eq!(settings.helix_mode, Some(true));
    assert_eq!(settings.vim_mode, Some(false));

    // Enabling vim mode should update `vim_mode` and disable
    // `helix_mode`.
    write_vim_mode_inner(&mut settings, Some(true));
    assert_eq!(settings.vim_mode, Some(true));
    assert_eq!(settings.helix_mode, Some(false));
}

#[test]
fn modal_modes_never_both_enabled() {
    let starts = [None, Some(false), Some(true)];
    for vim in starts {
        for helix in starts {
            for value in starts {
                let mut s = ModalEditingSettings { vim_mode: vim, helix_mode: helix };
                write_vim_mode_inner(&mut s, value);
                assert_eq!(s.vim_mode, value);
                assert!(!(s.vim_mode == Some(true) && s.helix_mode == Some(true)));
                let mut s = ModalEditingSettings { vim_mode: vim, helix_mode: helix };
                write_helix_mode_inner(&mut s, value);
                assert_eq!(s.helix_mode, value);
                assert!(!(s.vim_mode == Some(true) && s.helix_mode == Some(true)));
            }
        }
    }
}
