//! The mailbox of the scrolling benchmark: ten thousand made-up messages, and how far the list has
//! scrolled.
use crate::text::{count, decimal, initials, two_digits};
use crate::text::{decimal_text, initials_of, parse_count, same_text, two_digit_text};
#[allow(unused_imports)]
use crate::text::{law_count_reads_back, law_decimal_has_value, lemma_decimal_is_digits};
#[allow(unused_imports)]
use crate::text::{law_decimal_is_injective, law_initials_of_two_words, law_two_digits, value};
use vstd::prelude::*;

verus! {

/// How many messages the list holds.
pub const ROWS: usize = 10_000;

/// How many rows the sidebar has.
pub const FOLDER_ROWS: usize = 25;

/// The senders.
pub open spec fn sender_name(k: int) -> Seq<char> {
    if k == 0 {
        "Alice Martin"@
    } else if k == 1 {
        "Bruno Rossi"@
    } else if k == 2 {
        "Chloé Dubois"@
    } else if k == 3 {
        "David Chen"@
    } else if k == 4 {
        "Emma Laurent"@
    } else if k == 5 {
        "Farid Haddad"@
    } else if k == 6 {
        "Giulia Bianchi"@
    } else if k == 7 {
        "Hugo Moreau"@
    } else if k == 8 {
        "Inès Garcia"@
    } else if k == 9 {
        "Jules Petit"@
    } else if k == 10 {
        "Karim Benali"@
    } else {
        "Léa Fontaine"@
    }
}

fn sender_text(k: usize) -> (r: &'static str)
    requires
        k < 12,
    ensures
        r@ == sender_name(k as int),
{
    let r: &'static str = if k == 0 {
        "Alice Martin"
    } else if k == 1 {
        "Bruno Rossi"
    } else if k == 2 {
        "Chloé Dubois"
    } else if k == 3 {
        "David Chen"
    } else if k == 4 {
        "Emma Laurent"
    } else if k == 5 {
        "Farid Haddad"
    } else if k == 6 {
        "Giulia Bianchi"
    } else if k == 7 {
        "Hugo Moreau"
    } else if k == 8 {
        "Inès Garcia"
    } else if k == 9 {
        "Jules Petit"
    } else if k == 10 {
        "Karim Benali"
    } else {
        "Léa Fontaine"
    };
    r
}

/// What the messages are about.
pub open spec fn subject_stem(k: int) -> Seq<char> {
    if k == 0 {
        "Relevé LiDAR du secteur nord — validation"@
    } else if k == 1 {
        "Plan de vol : corridor Ajaccio"@
    } else if k == 2 {
        "Re: Calage altimétrique iAGL"@
    } else if k == 3 {
        "Facture septembre"@
    } else if k == 4 {
        "Mise à jour firmware M350"@
    } else if k == 5 {
        "Point hebdo équipe terrain"@
    } else if k == 6 {
        "Export WPML refusé par la RC"@
    } else {
        "Nouvelle zone NOTAM"@
    }
}

fn subject_text(k: usize) -> (r: &'static str)
    requires
        k < 8,
    ensures
        r@ == subject_stem(k as int),
{
    let r: &'static str = if k == 0 {
        "Relevé LiDAR du secteur nord — validation"
    } else if k == 1 {
        "Plan de vol : corridor Ajaccio"
    } else if k == 2 {
        "Re: Calage altimétrique iAGL"
    } else if k == 3 {
        "Facture septembre"
    } else if k == 4 {
        "Mise à jour firmware M350"
    } else if k == 5 {
        "Point hebdo équipe terrain"
    } else if k == 6 {
        "Export WPML refusé par la RC"
    } else {
        "Nouvelle zone NOTAM"
    };
    r
}

/// How the messages begin.
pub open spec fn preview_line(k: int) -> Seq<char> {
    if k == 0 {
        "Bonjour, vous trouverez ci-joint les résultats du vol d'hier, avec la couverture et les écarts mesurés sur les points de contrôle."@
    } else if k == 1 {
        "Petit rappel : la réunion est déplacée à jeudi 14h, merci de confirmer votre présence et d'apporter les relevés."@
    } else if k == 2 {
        "Le fichier généré ne passe pas la validation, il manque l'altitude de sécurité sur deux waypoints du segment 3."@
    } else {
        "Suite à notre échange, voici la proposition mise à jour avec le chiffrage détaillé et le planning prévisionnel."@
    }
}

fn preview_text(k: usize) -> (r: &'static str)
    requires
        k < 4,
    ensures
        r@ == preview_line(k as int),
{
    let r: &'static str = if k == 0 {
        "Bonjour, vous trouverez ci-joint les résultats du vol d'hier, avec la couverture et les écarts mesurés sur les points de contrôle."
    } else if k == 1 {
        "Petit rappel : la réunion est déplacée à jeudi 14h, merci de confirmer votre présence et d'apporter les relevés."
    } else if k == 2 {
        "Le fichier généré ne passe pas la validation, il manque l'altitude de sécurité sur deux waypoints du segment 3."
    } else {
        "Suite à notre échange, voici la proposition mise à jour avec le chiffrage détaillé et le planning prévisionnel."
    };
    r
}

/// The badges that messages wear.
pub open spec fn badge_name(k: int) -> Seq<char> {
    if k == 0 {
        "Terrain"@
    } else if k == 1 {
        "Urgent"@
    } else if k == 2 {
        "Client"@
    } else if k == 3 {
        "Compta"@
    } else {
        "Drone"@
    }
}

fn badge_text(k: usize) -> (r: &'static str)
    requires
        k < 5,
    ensures
        r@ == badge_name(k as int),
{
    let r: &'static str = if k == 0 {
        "Terrain"
    } else if k == 1 {
        "Urgent"
    } else if k == 2 {
        "Client"
    } else if k == 3 {
        "Compta"
    } else {
        "Drone"
    };
    r
}

/// The folders of the sidebar.
pub open spec fn folder_name(k: int) -> Seq<char> {
    if k == 0 {
        "Boîte de réception"@
    } else if k == 1 {
        "Favoris"@
    } else if k == 2 {
        "Envoyés"@
    } else if k == 3 {
        "Brouillons"@
    } else if k == 4 {
        "Archives"@
    } else if k == 5 {
        "Terrain"@
    } else if k == 6 {
        "Clients"@
    } else if k == 7 {
        "Compta"@
    } else if k == 8 {
        "Spam"@
    } else {
        "Corbeille"@
    }
}

fn folder_text(k: usize) -> (r: &'static str)
    requires
        k < 10,
    ensures
        r@ == folder_name(k as int),
{
    let r: &'static str = if k == 0 {
        "Boîte de réception"
    } else if k == 1 {
        "Favoris"
    } else if k == 2 {
        "Envoyés"
    } else if k == 3 {
        "Brouillons"
    } else if k == 4 {
        "Archives"
    } else if k == 5 {
        "Terrain"
    } else if k == 6 {
        "Clients"
    } else if k == 7 {
        "Compta"
    } else if k == 8 {
        "Spam"
    } else {
        "Corbeille"
    };
    r
}

/// A message as the list shows it.
pub struct Mail {
    pub sender: &'static str,
    pub initials: String,
    pub subject: String,
    pub preview: &'static str,
    pub date: String,
    /// The hue of the sender's disc, in twelfths of a turn.
    pub hue: usize,
    pub unread: bool,
    pub badges: Vec<&'static str>,
}

/// The date of message `i`.
pub open spec fn date_of(i: int) -> Seq<char> {
    two_digits((1 + i % 28) as nat) + "/09 "@ + two_digits(((i * 5) % 24) as nat) + ":"@
        + two_digits(((i * 13) % 60) as nat)
}

/// The message is the one at row `i`.
pub open spec fn is_mail(mail: Mail, i: int) -> bool {
    &&& mail.sender@ == sender_name(i % 12)
    &&& mail.initials@ == initials(sender_name(i % 12))
    &&& mail.subject@ == subject_stem((i * 7) % 8) + " #"@ + decimal(i as nat)
    &&& mail.preview@ == preview_line((i * 3) % 4)
    &&& mail.date@ == date_of(i)
    &&& mail.hue == i % 12
    &&& mail.unread == (i % 3 == 0)
    &&& mail.badges@.len() == i % 3
    &&& forall|b: int|
        0 <= b < mail.badges@.len() ==> (#[trigger] mail.badges@[b])@ == badge_name((i + b) % 5)
}

/// The message at row `i`.
pub fn mail(i: usize) -> (r: Mail)
    requires
        i < ROWS,
    ensures
        is_mail(r, i as int),
{
    let sender = sender_text(i % 12);
    let mut subject = String::from_str(subject_text((i * 7) % 8));
    subject.append(" #");
    subject.append(decimal_text(i as u64).as_str());
    let mut date = two_digit_text((1 + i % 28) as u64);
    date.append("/09 ");
    date.append(two_digit_text(((i * 5) % 24) as u64).as_str());
    date.append(":");
    date.append(two_digit_text(((i * 13) % 60) as u64).as_str());
    let mut badges: Vec<&'static str> = Vec::new();
    let mut b: usize = 0;
    while b < i % 3
        invariant
            i < ROWS,
            b <= i % 3,
            badges.len() == b,
            forall|k: int| 0 <= k < b ==> (#[trigger] badges@[k])@ == badge_name((i + k) % 5),
        decreases i % 3 - b,
    {
        badges.push(badge_text((i + b) % 5));
        b += 1;
    }
    Mail {
        sender,
        initials: initials_of(sender),
        subject,
        preview: preview_text((i * 3) % 4),
        date,
        hue: i % 12,
        unread: i % 3 == 0,
        badges,
    }
}

/// All the messages, in the order of their rows.
pub fn mails() -> (r: Vec<Mail>)
    ensures
        r@.len() == ROWS,
        forall|i: int| 0 <= i < ROWS ==> is_mail(#[trigger] r@[i], i),
{
    let mut r: Vec<Mail> = Vec::new();
    let mut i: usize = 0;
    while i < ROWS
        invariant
            i <= ROWS,
            r.len() == i,
            forall|k: int| 0 <= k < i ==> is_mail(#[trigger] r@[k], k),
        decreases ROWS - i,
    {
        r.push(mail(i));
        i += 1;
    }
    r
}

/// A row of the sidebar.
pub struct Folder {
    pub name: &'static str,
    pub messages: String,
    /// The hue of the row's square, in parts of the sidebar's rows.
    pub hue: usize,
}

/// Row `i` of the sidebar.
pub fn folder(i: usize) -> (r: Folder)
    requires
        i < FOLDER_ROWS,
    ensures
        r.name@ == folder_name(i as int % 10),
        r.messages@ == decimal(((i * 37) % 250) as nat),
        r.hue == i,
{
    Folder {
        name: folder_text(i % 10),
        messages: decimal_text(((i * 37) % 250) as u64),
        hue: i,
    }
}

/// What the status bar says.
pub fn status_text(label: &str) -> (r: String)
    ensures
        r@ == decimal(ROWS as nat) + " messages · "@ + label@,
{
    let mut text = decimal_text(ROWS as u64);
    text.append(" messages · ");
    text.append(label);
    text
}

/// How the window is put together.
#[derive(Clone, Copy, Debug, PartialEq, Eq, Structural)]
pub enum Mode {
    /// One view holds all.
    Root,
    /// Panels are cached views of their own.
    Cached,
}

/// What a run is asked to do.
#[derive(Clone, Copy, Debug)]
pub struct Settings {
    pub mode: Mode,
    /// Rows are cached views of their own.
    pub cached_rows: bool,
    /// The frame after which scrolling stops.
    pub stop: Option<u64>,
}

/// What the settings ask for, given as text where they are given: anything but the exact words
/// leaves the plain way, and a frame number that cannot be read leaves scrolling on.
pub fn settings(mode: Option<&str>, rows: Option<&str>, stop: Option<&str>) -> (r: Settings)
    ensures
        r.mode is Cached <==> (mode matches Some(text) && text@ == "cached"@),
        r.cached_rows <==> (rows matches Some(text) && text@ == "1"@),
        r.stop == match stop {
            Some(text) => count(text@),
            None => None,
        },
{
    let cached = match mode {
        Some(text) => same_text(text, "cached"),
        None => false,
    };
    Settings {
        mode: if cached {
            Mode::Cached
        } else {
            Mode::Root
        },
        cached_rows: match rows {
            Some(text) => same_text(text, "1"),
            None => false,
        },
        stop: match stop {
            Some(text) => parse_count(text),
            None => None,
        },
    }
}

/// What the list does for a frame.
#[derive(Clone, Copy, Debug, PartialEq, Eq, Structural)]
pub enum ScrollStep {
    /// It scrolls on and asks for another frame.
    Run,
    /// It has stopped just now, and says so.
    Ready,
    /// It stands still.
    Still,
}

/// What the list does for a frame after `frames` frames.
pub open spec fn step_after(frames: int, stop: Option<u64>) -> ScrollStep {
    match stop {
        None => ScrollStep::Run,
        Some(stop) => if frames < stop {
            ScrollStep::Run
        } else if frames == stop {
            ScrollStep::Ready
        } else {
            ScrollStep::Still
        },
    }
}

/// How many frames count once the list has been drawn `draws` times.
pub open spec fn frames_after(draws: nat, stop: Option<u64>) -> int
    decreases draws,
{
    if draws == 0 {
        0
    } else {
        let before = frames_after((draws - 1) as nat, stop);
        if step_after(before, stop) is Still {
            before
        } else {
            before + 1
        }
    }
}

/// The frames that a list has counted.
#[derive(Clone, Copy, Debug)]
pub struct Scroll {
    pub frames: u64,
}

impl Scroll {
    /// No frame yet.
    pub fn new() -> (r: Scroll)
        ensures
            r.frames == 0,
    {
        Scroll { frames: 0 }
    }

    /// Draws the list once more.
    pub fn step(&mut self, stop: Option<u64>) -> (r: ScrollStep)
        requires
            old(self).frames < u64::MAX || step_after(old(self).frames as int, stop) is Still,
        ensures
            r == step_after(old(self).frames as int, stop),
            final(self).frames == if r is Still {
                old(self).frames as int
            } else {
                old(self).frames + 1
            },
    {
        let step = match stop {
            None => ScrollStep::Run,
            Some(stop) => if self.frames < stop {
                ScrollStep::Run
            } else if self.frames == stop {
                ScrollStep::Ready
            } else {
                ScrollStep::Still
            },
        };
        match step {
            ScrollStep::Still => {},
            _ => {
                self.frames = self.frames + 1;
            },
        }
        step
    }
}

/// A list that is to stop after `stop` frames scrolls for exactly that many, says once that it has
/// stopped, and stands still from then on; one that is not to stop never does.
pub proof fn law_stops_once(draws: nat, stop: Option<u64>)
    ensures
        match stop {
            Some(stop) => {
                let step = step_after(frames_after(draws, Some(stop)), Some(stop));
                &&& frames_after(draws, Some(stop)) == if draws <= stop {
                    draws as int
                } else {
                    stop + 1
                }
                &&& step is Run <==> draws < stop
                &&& step is Ready <==> draws == stop
                &&& step is Still <==> draws > stop
            },
            None => {
                &&& frames_after(draws, stop) == draws
                &&& step_after(frames_after(draws, stop), stop) is Run
            },
        },
    decreases draws,
{
    if draws > 0 {
        law_stops_once((draws - 1) as nat, stop);
    }
}

/// How many frames to share a measurement among: one at least.
pub fn frame_share(before: u64, after: u64) -> (r: u64)
    requires
        before <= after,
    ensures
        r == if after == before {
            1
        } else {
            after - before
        },
{
    if after == before {
        1
    } else {
        after - before
    }
}

/// No two senders share a name.
proof fn lemma_senders_differ(j: int, k: int)
    requires
        0 <= j < 12,
        0 <= k < 12,
        sender_name(j) == sender_name(k),
    ensures
        j == k,
{
    reveal_strlit("Alice Martin");
    reveal_strlit("Bruno Rossi");
    reveal_strlit("Chloé Dubois");
    reveal_strlit("David Chen");
    reveal_strlit("Emma Laurent");
    reveal_strlit("Farid Haddad");
    reveal_strlit("Giulia Bianchi");
    reveal_strlit("Hugo Moreau");
    reveal_strlit("Inès Garcia");
    reveal_strlit("Jules Petit");
    reveal_strlit("Karim Benali");
    reveal_strlit("Léa Fontaine");
    assert(sender_name(k)[0] == seq!['A', 'B', 'C', 'D', 'E', 'F', 'G', 'H', 'I', 'J', 'K', 'L'][k]);
    assert(sender_name(j)[0] == seq!['A', 'B', 'C', 'D', 'E', 'F', 'G', 'H', 'I', 'J', 'K', 'L'][j]);
}

/// No two subjects are the same.
proof fn lemma_subjects_differ(j: int, k: int)
    requires
        0 <= j < 8,
        0 <= k < 8,
        subject_stem(j) == subject_stem(k),
    ensures
        j == k,
{
    reveal_strlit("Relevé LiDAR du secteur nord — validation");
    reveal_strlit("Plan de vol : corridor Ajaccio");
    reveal_strlit("Re: Calage altimétrique iAGL");
    reveal_strlit("Facture septembre");
    reveal_strlit("Mise à jour firmware M350");
    reveal_strlit("Point hebdo équipe terrain");
    reveal_strlit("Export WPML refusé par la RC");
    reveal_strlit("Nouvelle zone NOTAM");
    assert(subject_stem(k)[0] == seq!['R', 'P', 'R', 'F', 'M', 'P', 'E', 'N'][k]);
    assert(subject_stem(j)[0] == seq!['R', 'P', 'R', 'F', 'M', 'P', 'E', 'N'][j]);
    assert(subject_stem(k)[1] == seq!['e', 'l', 'e', 'a', 'i', 'o', 'x', 'o'][k]);
    assert(subject_stem(j)[1] == seq!['e', 'l', 'e', 'a', 'i', 'o', 'x', 'o'][j]);
    assert(subject_stem(k)[2] == seq!['l', 'a', ':', 'c', 's', 'i', 'p', 'u'][k]);
    assert(subject_stem(j)[2] == seq!['l', 'a', ':', 'c', 's', 'i', 'p', 'u'][j]);
}

/// No two previews are the same.
proof fn lemma_previews_differ(j: int, k: int)
    requires
        0 <= j < 4,
        0 <= k < 4,
        preview_line(j) == preview_line(k),
    ensures
        j == k,
{
    reveal_strlit("Bonjour, vous trouverez ci-joint les résultats du vol d'hier, avec la couverture et les écarts mesurés sur les points de contrôle.");
    reveal_strlit("Petit rappel : la réunion est déplacée à jeudi 14h, merci de confirmer votre présence et d'apporter les relevés.");
    reveal_strlit("Le fichier généré ne passe pas la validation, il manque l'altitude de sécurité sur deux waypoints du segment 3.");
    reveal_strlit("Suite à notre échange, voici la proposition mise à jour avec le chiffrage détaillé et le planning prévisionnel.");
    assert(preview_line(k)[0] == seq!['B', 'P', 'L', 'S'][k]);
    assert(preview_line(j)[0] == seq!['B', 'P', 'L', 'S'][j]);
}

/// No two badges share a name.
proof fn lemma_badges_differ(j: int, k: int)
    requires
        0 <= j < 5,
        0 <= k < 5,
        badge_name(j) == badge_name(k),
    ensures
        j == k,
{
    reveal_strlit("Terrain");
    reveal_strlit("Urgent");
    reveal_strlit("Client");
    reveal_strlit("Compta");
    reveal_strlit("Drone");
    assert(badge_name(k)[0] == seq!['T', 'U', 'C', 'C', 'D'][k]);
    assert(badge_name(j)[0] == seq!['T', 'U', 'C', 'C', 'D'][j]);
    assert(badge_name(k)[1] == seq!['e', 'r', 'l', 'o', 'r'][k]);
    assert(badge_name(j)[1] == seq!['e', 'r', 'l', 'o', 'r'][j]);
}

/// No two folders share a name.
proof fn lemma_folders_differ(j: int, k: int)
    requires
        0 <= j < 10,
        0 <= k < 10,
        folder_name(j) == folder_name(k),
    ensures
        j == k,
{
    reveal_strlit("Boîte de réception");
    reveal_strlit("Favoris");
    reveal_strlit("Envoyés");
    reveal_strlit("Brouillons");
    reveal_strlit("Archives");
    reveal_strlit("Terrain");
    reveal_strlit("Clients");
    reveal_strlit("Compta");
    reveal_strlit("Spam");
    reveal_strlit("Corbeille");
    assert(folder_name(k)[0] == seq!['B', 'F', 'E', 'B', 'A', 'T', 'C', 'C', 'S', 'C'][k]);
    assert(folder_name(j)[0] == seq!['B', 'F', 'E', 'B', 'A', 'T', 'C', 'C', 'S', 'C'][j]);
    assert(folder_name(k)[1] == seq!['o', 'a', 'n', 'r', 'r', 'e', 'l', 'o', 'p', 'o'][k]);
    assert(folder_name(j)[1] == seq!['o', 'a', 'n', 'r', 'r', 'e', 'l', 'o', 'p', 'o'][j]);
    assert(folder_name(k)[2] == seq!['î', 'v', 'v', 'o', 'c', 'r', 'i', 'm', 'a', 'r'][k]);
    assert(folder_name(j)[2] == seq!['î', 'v', 'v', 'o', 'c', 'r', 'i', 'm', 'a', 'r'][j]);
}

/// The senders go through all twelve names in turn: two rows have the same sender exactly if their
/// numbers are the same modulo twelve, and so have their discs the same hue. The row whose hue is
/// `k` has name number `k` of the list, and each of the first twelve rows has a hue of its own, so
/// that every name is the sender of some row. The initials are those of the sender.
#[verifier::spinoff_prover]
pub proof fn law_senders_take_turns(i: usize, j: usize, a: Mail, b: Mail)
    requires
        i < 10_000,
        j < 10_000,
        call_ensures(mail, (i,), a),
        call_ensures(mail, (j,), b),
    ensures
        a.sender@ == b.sender@ <==> i as int % 12 == j as int % 12,
        a.hue == b.hue <==> i as int % 12 == j as int % 12,
        i < 12 ==> a.hue == i,
        a.hue < 12,
        a.sender@ == seq![
            "Alice Martin"@,
            "Bruno Rossi"@,
            "Chloé Dubois"@,
            "David Chen"@,
            "Emma Laurent"@,
            "Farid Haddad"@,
            "Giulia Bianchi"@,
            "Hugo Moreau"@,
            "Inès Garcia"@,
            "Jules Petit"@,
            "Karim Benali"@,
            "Léa Fontaine"@,
        ][a.hue as int],
        a.initials@ == initials(a.sender@),
{
    if a.sender@ == b.sender@ {
        lemma_senders_differ(i as int % 12, j as int % 12);
    }
}

/// The two initials of a sender are the first letters of the two words of the name.
#[verifier::spinoff_prover]
pub proof fn law_initials_are_two_letters(i: usize, a: Mail)
    requires
        i < 10_000,
        call_ensures(mail, (i,), a),
    ensures
        a.initials@.len() == 2,
        a.initials@[0] == a.sender@[0],
        exists|k: int|
            0 < k < a.sender@.len() && a.sender@[k - 1] == ' ' && a.initials@[1]
                == #[trigger] a.sender@[k],
{
    lemma_names_have_two_words(i as int % 12);
}

/// Each name has two words.
proof fn lemma_names_have_two_words(k: int)
    requires
        0 <= k < 12,
    ensures
        ({
            let name = sender_name(k);
            &&& initials(name).len() == 2
            &&& initials(name)[0] == name[0]
            &&& exists|j: int|
                0 < j < name.len() && name[j - 1] == ' ' && initials(name)[1] == #[trigger] name[j]
        }),
{
    reveal_strlit("Alice Martin");
    reveal_strlit("Bruno Rossi");
    reveal_strlit("Chloé Dubois");
    reveal_strlit("David Chen");
    reveal_strlit("Emma Laurent");
    reveal_strlit("Farid Haddad");
    reveal_strlit("Giulia Bianchi");
    reveal_strlit("Hugo Moreau");
    reveal_strlit("Inès Garcia");
    reveal_strlit("Jules Petit");
    reveal_strlit("Karim Benali");
    reveal_strlit("Léa Fontaine");
    let name = sender_name(k);
    let n = seq![5int, 5int, 5int, 5int, 4int, 5int, 6int, 4int, 4int, 5int, 5int, 3int][k];
    let (first, last) = (name.take(n), name.skip(n + 1));
    assert(name[n] == ' ');
    assert(forall|i: int| 0 <= i < name.len() && i != n ==> #[trigger] name[i] != ' ');
    assert(name =~= first + seq![' '] + last);
    law_initials_of_two_words(first, last);
    assert(name[n + 1] == last[0]);
}

/// Going on by seven round a circle of eight, or by three round one of four, is going back by one.
proof fn lemma_backwards(i: int)
    requires
        0 <= i,
    ensures
        (i * 7) % 8 == if i % 8 == 0 {
            0
        } else {
            8 - i % 8
        },
        (i * 3) % 4 == if i % 4 == 0 {
            0
        } else {
            4 - i % 4
        },
{
}

/// A subject ends with the number of its row, so that no two are the same; what stands before it
/// goes through the eight stems, backwards, and two rows have the same stem exactly if their
/// numbers are the same modulo eight.
#[verifier::spinoff_prover]
pub proof fn law_subjects_take_turns(
    i: usize,
    j: usize,
    a: Mail,
    b: Mail,
    s: Seq<char>,
    t: Seq<char>,
)
    requires
        i < 10_000,
        j < 10_000,
        call_ensures(mail, (i,), a),
        call_ensures(mail, (j,), b),
        a.subject@ == s + " #"@ + decimal(i as nat),
        b.subject@ == t + " #"@ + decimal(j as nat),
    ensures
        s == t <==> i as int % 8 == j as int % 8,
        s == seq![
            "Relevé LiDAR du secteur nord — validation"@,
            "Plan de vol : corridor Ajaccio"@,
            "Re: Calage altimétrique iAGL"@,
            "Facture septembre"@,
            "Mise à jour firmware M350"@,
            "Point hebdo équipe terrain"@,
            "Export WPML refusé par la RC"@,
            "Nouvelle zone NOTAM"@,
        ][if i as int % 8 == 0 {
            0int
        } else {
            8 - i as int % 8
        }],
        a.subject@ == b.subject@ <==> i == j,
{
    let (k, l) = ((i * 7) % 8, (j * 7) % 8);
    lemma_backwards(i as int);
    lemma_backwards(j as int);
    lemma_same_before(s, subject_stem(k), " #"@, decimal(i as nat));
    lemma_same_before(t, subject_stem(l), " #"@, decimal(j as nat));
    assert(s == subject_stem(k) && t == subject_stem(l));
    assert(k == l <==> i as int % 8 == j as int % 8);
    if s == t {
        lemma_subjects_differ(k, l);
    }
    if a.subject@ == b.subject@ {
        lemma_numbers_behind_signs(s, t, i as nat, j as nat);
    }
}

/// Two texts that are the same with the same ending are the same without it.
proof fn lemma_same_before(s: Seq<char>, t: Seq<char>, sign: Seq<char>, number: Seq<char>)
    requires
        s + sign + number == t + sign + number,
    ensures
        s == t,
{
    let text = s + sign + number;
    assert((t + sign + number).len() == text.len());
    assert(s.len() == t.len());
    assert(text.take(s.len() as int) =~= s);
    assert((t + sign + number).take(t.len() as int) =~= t);
}

/// What stands behind the last number sign is the number.
proof fn lemma_numbers_behind_signs(s: Seq<char>, t: Seq<char>, i: nat, j: nat)
    requires
        s + " #"@ + decimal(i) == t + " #"@ + decimal(j),
    ensures
        i == j,
{
    let (x, y) = (decimal(i), decimal(j));
    let text = s + " #"@ + x;
    let again = t + " #"@ + y;
    reveal_strlit(" #");
    lemma_decimal_is_digits(i);
    lemma_decimal_is_digits(j);
    let n = text.len() as int;
    assert(text[n - x.len() - 1] == '#');
    assert(again[n - y.len() - 1] == '#');
    if x.len() < y.len() {
        assert(again[n - x.len() - 1] == y[y.len() - x.len() - 1]);
    }
    if y.len() < x.len() {
        assert(text[n - y.len() - 1] == x[x.len() - y.len() - 1]);
    }
    assert(text.skip(n - x.len()) =~= x);
    assert(again.skip(n - y.len()) =~= y);
    law_decimal_is_injective(i, j);
}

/// The previews go through the four lines, backwards: two rows have the same preview exactly if
/// their numbers are the same modulo four.
#[verifier::spinoff_prover]
pub proof fn law_previews_take_turns(i: usize, j: usize, a: Mail, b: Mail)
    requires
        i < 10_000,
        j < 10_000,
        call_ensures(mail, (i,), a),
        call_ensures(mail, (j,), b),
    ensures
        a.preview@ == b.preview@ <==> i as int % 4 == j as int % 4,
        a.preview@ == seq![
            "Bonjour, vous trouverez ci-joint les résultats du vol d'hier, avec la couverture et les écarts mesurés sur les points de contrôle."@,
            "Petit rappel : la réunion est déplacée à jeudi 14h, merci de confirmer votre présence et d'apporter les relevés."@,
            "Le fichier généré ne passe pas la validation, il manque l'altitude de sécurité sur deux waypoints du segment 3."@,
            "Suite à notre échange, voici la proposition mise à jour avec le chiffrage détaillé et le planning prévisionnel."@,
        ][if i as int % 4 == 0 {
            0int
        } else {
            4 - i as int % 4
        }],
{
    lemma_backwards(i as int);
    lemma_backwards(j as int);
    if a.preview@ == b.preview@ {
        lemma_previews_differ((i * 3) % 4, (j * 3) % 4);
    }
}

/// Of any three rows in a row, the one whose number three divides is unread and wears no badge, the
/// next wears one and the one after it two.
#[verifier::spinoff_prover]
pub proof fn law_every_third_row_is_unread(i: usize, j: usize, m: Mail, n: Mail)
    requires
        i < 10_000,
        j < 10_000,
        call_ensures(mail, (i,), m),
        call_ensures(mail, (j,), n),
    ensures
        m.unread <==> m.badges.len() == 0,
        m.badges.len() < 3,
        i == 0 ==> m.unread,
        j == i + 1 && m.badges.len() < 2 ==> n.badges.len() == m.badges.len() + 1,
        j == i + 1 && m.badges.len() == 2 ==> n.badges.len() == 0,
{
    assert(m.badges.len() == i as int % 3 && n.badges.len() == j as int % 3);
}

/// The badges go through the five names: badge `b` of row `i` and badge `c` of row `j` are the same
/// exactly if `i + b` and `j + c` are the same modulo five.
#[verifier::spinoff_prover]
pub proof fn law_badges_take_turns(i: usize, j: usize, m: Mail, n: Mail, b: int, c: int)
    requires
        i < 10_000,
        j < 10_000,
        call_ensures(mail, (i,), m),
        call_ensures(mail, (j,), n),
        0 <= b < m.badges.len(),
        0 <= c < n.badges.len(),
    ensures
        m.badges@[b]@ == seq![
            "Terrain"@,
            "Urgent"@,
            "Client"@,
            "Compta"@,
            "Drone"@,
        ][(i + b) % 5],
        m.badges@[b]@ == n.badges@[c]@ <==> (i + b) % 5 == (j + c) % 5,
{
    let (k, l) = ((i + b) % 5, (j + c) % 5);
    assert(0 <= k < 5 && 0 <= l < 5);
    assert(m.badges@[b]@ == badge_name(k));
    assert(n.badges@[c]@ == badge_name(l));
    if m.badges@[b]@ == n.badges@[c]@ {
        lemma_badges_differ(k, l);
    }
}

/// A date is a day from 1 to 28 of September and a time of day, in two digits each: from one row to
/// the next the day goes on by one, the hour by five and the minute by thirteen, each round its own
/// circle, from the first at midnight on.
#[verifier::spinoff_prover]
pub proof fn law_dates_go_on(i: usize, a: Mail)
    requires
        i < 10_000,
        call_ensures(mail, (i,), a),
    ensures
        a.date@.len() == 11,
        value(a.date@.take(2)) == 1 + i as int % 28,
        a.date@.subrange(2, 6) == seq!['/', '0', '9', ' '],
        value(a.date@.subrange(6, 8)) == (5 * i) % 24,
        a.date@[8] == ':',
        value(a.date@.skip(9)) == (13 * i) % 60,
{
    let (d, h, m) = ((1 + i as int % 28) as nat, ((i * 5) % 24) as nat, ((i * 13) % 60) as nat);
    reveal_strlit("/09 ");
    reveal_strlit(":");
    law_two_digits(d);
    law_two_digits(h);
    law_two_digits(m);
    assert(a.date@.take(2) =~= two_digits(d));
    assert(a.date@.subrange(2, 6) =~= seq!['/', '0', '9', ' ']);
    assert(a.date@.subrange(6, 8) =~= two_digits(h));
    assert(a.date@.skip(9) =~= two_digits(m));
}

/// The list has ten thousand messages, and each row has the message of its number.
#[verifier::spinoff_prover]
pub proof fn law_list_has_every_message(all: Vec<Mail>, i: int)
    requires
        call_ensures(mails, (), all),
        0 <= i < 10_000,
    ensures
        all.len() == 10_000,
        is_mail(all@[i], i),
        all@[i].hue == i % 12,
        exists|s: Seq<char>| all@[i].subject@ == #[trigger] (s + " #"@) + decimal(i as nat),
{
    assert(is_mail(all@[i], i));
    let s = subject_stem((i * 7) % 8);
    assert(all@[i].subject@ == (s + " #"@) + decimal(i as nat));
}

/// The rows of the sidebar go through the ten folders: two rows have the same folder exactly if
/// their numbers are the same modulo ten. Each row has a hue of its own, and from one row to the
/// next there are 37 messages more, round a circle of 250, from none in the first on.
#[verifier::spinoff_prover]
pub proof fn law_folders_take_turns(i: usize, j: usize, a: Folder, b: Folder)
    requires
        i < 25,
        j < 25,
        call_ensures(folder, (i,), a),
        call_ensures(folder, (j,), b),
    ensures
        a.name@ == b.name@ <==> i as int % 10 == j as int % 10,
        a.name@ == seq![
            "Boîte de réception"@,
            "Favoris"@,
            "Envoyés"@,
            "Brouillons"@,
            "Archives"@,
            "Terrain"@,
            "Clients"@,
            "Compta"@,
            "Spam"@,
            "Corbeille"@,
        ][i as int % 10],
        a.hue == b.hue <==> i == j,
        a.hue == i,
        value(a.messages@) == (37 * i) % 250,
{
    if a.name@ == b.name@ {
        lemma_folders_differ(i as int % 10, j as int % 10);
    }
    law_decimal_has_value(((i * 37) % 250) as nat);
}

/// The status bar counts the messages and ends with the label.
pub proof fn law_status_counts_messages(label: &str, r: String)
    requires
        call_ensures(status_text, (label,), r),
    ensures
        r@.take(5) == seq!['1', '0', '0', '0', '0'],
        r@.subrange(5, 17) == " messages · "@,
        r@.skip(17) == label@,
{
    reveal_strlit(" messages · ");
    reveal_with_fuel(decimal, 6);
    assert(decimal(10_000) =~= seq!['1', '0', '0', '0', '0']);
    assert(r@.take(5) =~= decimal(10_000));
    assert(r@.subrange(5, 17) =~= " messages · "@);
    assert(r@.skip(17) =~= label@);
}

/// Each setting is taken from its own text: the exact words turn the cached ways on, any other text
/// and none at all leave the plain ways, and the list stops where a number tells it to.
pub proof fn law_settings_are_independent(
    mode: Option<&str>,
    rows: Option<&str>,
    stop: Option<&str>,
    r: Settings,
    n: u64,
)
    requires
        call_ensures(settings, (mode, rows, stop), r),
    ensures
        mode is None ==> r.mode is Root,
        mode matches Some(text) ==> (r.mode is Cached <==> text@ == "cached"@),
        rows is None ==> !r.cached_rows,
        rows matches Some(text) ==> (r.cached_rows <==> text@ == "1"@),
        stop is None ==> r.stop is None,
        stop matches Some(text) ==> r.stop == count(text@) && (text@ == decimal(n as nat) ==> r.stop
            == Some(n)),
{
    law_count_reads_back(n);
}

/// A draw of the list does what the frames so far ask for: it runs while there are fewer than it
/// is to stop after, is ready once there are as many, and stands still beyond that; it counts
/// unless it stands still.
pub proof fn law_scroll_runs_to_stop(scroll: &mut Scroll, stop: Option<u64>, step: ScrollStep)
    requires
        old(scroll).frames < u64::MAX,
        call_ensures(Scroll::step, (scroll, stop), step),
    ensures
        stop is None ==> step is Run,
        stop matches Some(n) ==> {
            &&& step is Run <==> old(scroll).frames < n
            &&& step is Ready <==> old(scroll).frames == n
            &&& step is Still <==> old(scroll).frames > n
        },
        step is Still ==> final(scroll).frames == old(scroll).frames,
        step !is Still ==> final(scroll).frames == old(scroll).frames + 1,
{
}

/// A measurement is shared among the frames that went by, and never among none.
pub proof fn law_share_counts_frames(before: u64, after: u64, share: u64)
    requires
        before <= after,
        call_ensures(frame_share, (before, after), share),
    ensures
        share > 0,
        before < after ==> before + share == after,
        before == after ==> share == 1,
{
}

/// A list starts with no frame counted.
pub proof fn law_list_starts_at_zero(scroll: Scroll)
    requires
        call_ensures(Scroll::new, (), scroll),
    ensures
        scroll.frames == 0,
{
}

} // verus!
