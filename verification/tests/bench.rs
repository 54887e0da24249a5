use gpui3d::bench::{
    FOLDER_ROWS, Mode, ROWS, Scroll, ScrollStep, folder, frame_share, mail, mails, settings, status_text,
};
use gpui3d::text::{decimal_text, initials_of, parse_count, same_text, two_digit_text};

#[test]
fn first_messages_of_the_mailbox() {
    let first = mail(0);
    assert_eq!((first.sender, first.initials.as_str()), ("Alice Martin", "AM"));
    assert_eq!(first.subject, "Relevé LiDAR du secteur nord — validation #0");
    assert_eq!(first.date, "01/09 00:00");
    assert!(first.unread && first.badges.is_empty());
    let other = mail(38);
    assert_eq!((other.sender, other.initials.as_str()), ("Chloé Dubois", "CD"));
    assert_eq!(other.subject, "Re: Calage altimétrique iAGL #38");
    assert!(other.preview.starts_with("Le fichier généré"));
    assert_eq!(other.date, "11/09 22:14");
    assert_eq!((other.hue, other.unread), (2, false));
    assert_eq!(other.badges, ["Compta", "Drone"]);
}

#[test]
fn every_message_has_its_row() {
    let all = mails();
    assert_eq!(all.len(), ROWS);
    for (i, message) in all.iter().enumerate() {
        assert!(message.subject.ends_with(&format!(" #{i}")));
        let date = format!("{:02}/09 {:02}:{:02}", 1 + i % 28, (i * 5) % 24, (i * 13) % 60);
        assert_eq!(message.date, date);
        assert_eq!(message.badges.len(), i % 3);
    }
}

#[test]
fn folders_of_the_sidebar() {
    assert_eq!(FOLDER_ROWS, 25);
    let first = folder(0);
    assert_eq!((first.name, first.messages.as_str(), first.hue), ("Boîte de réception", "0", 0));
    let last = folder(24);
    assert_eq!((last.name, last.messages.as_str(), last.hue), ("Archives", "138", 24));
    assert_eq!(status_text("root"), "10000 messages · root");
}

#[test]
fn settings_are_read_from_text() {
    let plain = settings(None, None, None);
    assert_eq!((plain.mode, plain.cached_rows, plain.stop), (Mode::Root, false, None));
    let odd = settings(Some("Cached"), Some("true"), Some("-1"));
    assert_eq!((odd.mode, odd.cached_rows, odd.stop), (Mode::Root, false, None));
    let full = settings(Some("cached"), Some("1"), Some("120"));
    assert_eq!((full.mode, full.cached_rows, full.stop), (Mode::Cached, true, Some(120)));
}

#[test]
fn counts_are_read_as_the_standard_library_reads_them() {
    let texts = [
        "", "+", "-", "0", "00", "+7", "++7", "-0", " 1", "1 ", "12a", "é", "18446744073709551615",
        "18446744073709551616", "+00018446744073709551615", "99999999999999999999999",
    ];
    for text in texts {
        assert_eq!(parse_count(text), text.parse::<u64>().ok());
    }
    for n in [0, 9, 10, 4096, u64::MAX] {
        assert_eq!(parse_count(&decimal_text(n)), Some(n));
    }
}

#[test]
fn list_stops_once() {
    let mut scroll = Scroll::new();
    let steps: Vec<ScrollStep> = (0..6).map(|_| scroll.step(Some(3))).collect();
    assert_eq!(
        steps,
        [
            ScrollStep::Run,
            ScrollStep::Run,
            ScrollStep::Run,
            ScrollStep::Ready,
            ScrollStep::Still,
            ScrollStep::Still,
        ]
    );
    assert_eq!(scroll.frames, 4);
    let mut endless = Scroll::new();
    assert!((0..50).all(|_| endless.step(None) == ScrollStep::Run));
    assert_eq!(endless.frames, 50);
    let mut last = Scroll { frames: u64::MAX };
    assert_eq!((last.step(Some(7)), last.frames), (ScrollStep::Still, u64::MAX));
}

#[test]
fn measurements_are_shared_among_one_frame_at_least() {
    assert_eq!((frame_share(5, 5), frame_share(5, 6), frame_share(5, 25)), (1, 1, 20));
}

#[test]
fn numbers_as_text() {
    for n in [0u64, 7, 10, 99, 100, 65_535, u64::MAX] {
        assert_eq!(decimal_text(n), format!("{n}"));
        assert_eq!(two_digit_text(n), format!("{n:02}"));
    }
}

#[test]
fn initials_of_names() {
    assert_eq!(initials_of("Léa Fontaine"), "LF");
    assert_eq!(initials_of(" Inès  Élise Garcia "), "IÉG");
    assert_eq!(initials_of(""), "");
    assert!(same_text("été", "été") && !same_text("a", "b") && !same_text("a", "ab"));
}
