use std::io::Cursor;

use image::{DynamicImage, ImageFormat, Rgb, RgbImage, Rgba, RgbaImage};
use simba_installer::icon::{icon_from_decoded, load_icon_from_embedded_png};
use simba_installer::message::InstallMessage;
use simba_installer::wizard::{Page, SimbaInstaller};

fn wizard(exists: bool, silent: bool) -> SimbaInstaller {
    SimbaInstaller::new("C:\\Simba".to_string(), exists, exists, silent)
}

#[test]
fn new_wizard() {
    let w = SimbaInstaller::new("C:\\Simba".to_string(), true, false, false);
    assert!(!w.simba_exists);
    let mut w = wizard(true, false);
    assert!(w.simba_exists && !w.is_installing && !w.is_error_message && !w.run_simba);
    assert_eq!(w.installation_message, "Ready to install...");
    assert_eq!(w.current_page(), Some(Page::Welcome));
    let page = w.show_welcome_page();
    assert_eq!(
        page.greeting,
        "Welcome to WaspScripts Simba installer.\nTo begin the installation click Next."
    );
    assert_eq!(page.install_path, "Install path is fixed to:\nC:\\Simba");
    w.welcome_page_clicked(false);
    assert_eq!(w.page, 0);
    w.welcome_page_clicked(true);
    assert_eq!(w.current_page(), Some(Page::ExistingInstallWarning));
}

#[test]
fn warning_is_shown_and_answered() {
    let mut w = wizard(true, false);
    w.welcome_page_clicked(true);
    assert_eq!(
        w.show_existing_install_warning_page(),
        Some(
            "You seem to have a previous Simba installation.\nContinuing may result in loss of previous data."
                .to_string()
        )
    );
    w.existing_install_warning_clicked(false, false);
    assert_eq!(w.page, 1);
    w.existing_install_warning_clicked(true, false);
    assert_eq!(w.current_page(), Some(Page::Welcome));
    w.welcome_page_clicked(true);
    w.existing_install_warning_clicked(true, true);
    assert_eq!(w.page, 1);
    w.existing_install_warning_clicked(false, true);
    assert_eq!(w.current_page(), Some(Page::VersionSelection));
}

#[test]
fn warning_is_skipped() {
    for (exists, silent) in [(false, false), (true, true), (false, true)] {
        let mut w = wizard(exists, silent);
        w.welcome_page_clicked(true);
        assert_eq!(w.show_existing_install_warning_page(), None);
        assert_eq!(w.current_page(), Some(Page::VersionSelection));
    }
}

#[test]
fn installation_page_starts_once() {
    let mut w = wizard(false, false);
    w.page = 2;
    assert_eq!(
        w.show_version_selection_page(),
        "The installation might take a while.\n\nPlease don't close the installer midway to prevent corruption."
    );
    w.version_selection_page_clicked(false);
    assert_eq!(w.page, 2);
    w.version_selection_page_clicked(true);
    assert_eq!(w.current_page(), Some(Page::Installation));
    let page = w.show_installation_page();
    assert!(page.start && !page.is_error);
    assert_eq!(page.message, "Ready to install...");
    assert_eq!(page.progress, 0);
    let page = w.show_installation_page();
    assert!(!page.start);
    assert_eq!(page.message, "Starting installation process...");
    w.receive(InstallMessage::Progress(450));
    w.receive(InstallMessage::Status("s".to_string()));
    assert_eq!(w.install_progress, 450);
    assert_eq!(w.installation_message, "s");
    w.receive(InstallMessage::Error("e".to_string()));
    assert_eq!(w.installation_message, "Installation failed: e");
    assert!(w.is_error_message && !w.is_installing);
    w.receive(InstallMessage::Status("s".to_string()));
    assert!(!w.is_error_message);
    w.receive(InstallMessage::Progress(10));
    assert!(w.show_installation_page().start);
    assert_eq!(w.install_progress, 0);
}

#[test]
fn final_page() {
    let mut w = wizard(false, false);
    w.page = 3;
    w.receive(InstallMessage::Completed);
    assert_eq!(w.current_page(), Some(Page::Final));
    let page = w.show_final_page();
    assert_eq!(page.heading, "Installation Finished");
    assert_eq!(page.note, "You can start using Simba now!");
    assert_eq!(page.launch_box, "Launch Simba");
    assert!(!page.run_simba);
    assert!(w.final_page_clicked(true, false).is_none());
    assert!(w.run_simba && w.show_final_page().run_simba);
    let end = w.final_page_clicked(true, true).unwrap();
    assert_eq!(end.launch, Some("Simba64.exe".to_string()));
    assert_eq!(end.exit_code, 0);
    let end = w.final_page_clicked(false, true).unwrap();
    assert_eq!(end.launch, None);
    w.page = 5;
    assert_eq!(w.current_page(), None);
}

fn png(image: DynamicImage) -> Vec<u8> {
    let mut bytes = Cursor::new(Vec::new());
    image.write_to(&mut bytes, ImageFormat::Png).unwrap();
    bytes.into_inner()
}

#[test]
fn icon_with_alpha() {
    let mut image = RgbaImage::new(2, 1);
    image.put_pixel(0, 0, Rgba([1, 2, 3, 4]));
    image.put_pixel(1, 0, Rgba([5, 6, 7, 8]));
    let icon = load_icon_from_embedded_png(&png(DynamicImage::ImageRgba8(image))).unwrap();
    assert_eq!((icon.width, icon.height), (2, 1));
    assert_eq!(icon.rgba, vec![1, 2, 3, 4, 5, 6, 7, 8]);
}

#[test]
fn icon_without_alpha() {
    let mut image = RgbImage::new(1, 2);
    image.put_pixel(0, 0, Rgb([9, 8, 7]));
    image.put_pixel(0, 1, Rgb([6, 5, 4]));
    let icon = load_icon_from_embedded_png(&png(DynamicImage::ImageRgb8(image))).unwrap();
    assert_eq!((icon.width, icon.height), (1, 2));
    assert_eq!(icon.rgba, vec![9, 8, 7, 255, 6, 5, 4, 255]);
}

#[test]
fn icon_that_is_no_png() {
    let message = load_icon_from_embedded_png(b"no image").unwrap_err();
    assert!(message.starts_with("Failed to decode embedded icon image: "));
    assert!(message.len() > "Failed to decode embedded icon image: ".len());
    assert_eq!(
        icon_from_decoded(Err("e".to_string())).unwrap_err(),
        "Failed to decode embedded icon image: e"
    );
}

fn messages() -> Vec<InstallMessage> {
    vec![
        InstallMessage::Progress(50),
        InstallMessage::Status("s".to_string()),
        InstallMessage::Progress(900),
        InstallMessage::Error("e".to_string()),
    ]
}

#[test]
fn visits_in_between_change_nothing() {
    let mut once = wizard(false, false);
    once.page = 3;
    assert!(once.show_installation_page().start);
    for message in messages() {
        once.receive(message);
    }
    let mut often = wizard(false, false);
    often.page = 3;
    assert!(often.show_installation_page().start);
    for message in messages() {
        assert!(!often.show_installation_page().start);
        often.receive(message);
        assert!(!often.show_installation_page().start);
    }
    assert_eq!(format!("{:?}", once), format!("{:?}", often));
}

#[test]
fn wizard_always_shows_a_page() {
    for seed in 0..64u32 {
        let mut w = wizard(seed % 2 == 0, false);
        for round in 0..12u32 {
            let click = (seed >> (round % 6)) % 2 == 0;
            match w.current_page() {
                Some(Page::Welcome) => w.welcome_page_clicked(click),
                Some(Page::ExistingInstallWarning) => {
                    if w.show_existing_install_warning_page().is_some() {
                        w.existing_install_warning_clicked(!click, click);
                    }
                }
                Some(Page::VersionSelection) => w.version_selection_page_clicked(click),
                Some(Page::Installation) => {
                    w.show_installation_page();
                    if click {
                        w.receive(InstallMessage::Completed);
                    }
                }
                Some(Page::Final) => assert!(w.final_page_clicked(click, false).is_none()),
                None => panic!("no page"),
            }
            assert!(w.page <= 4);
            assert_eq!(w.simba_dir, "C:\\Simba");
            assert_eq!(w.simba_exists, seed % 2 == 0);
            assert!(!w.silent);
        }
    }
}
