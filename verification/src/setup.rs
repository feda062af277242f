//! The decisions of the setup screen: the featured opening packs and which
//! book entries belong to them, the curated list of openings and its
//! search, and what happens to an opening request.

use vstd::prelude::*;
use crate::openings::{entry_views, line_moves, parse_opening, Opening, OpeningEntry};
use crate::pieces::PieceColor;
use vstd::string::StringExecFns;
use crate::text::{contains_str, has_prefix, has_substring, lowercase, starts_with, string_views, to_lowercase};

verus! {

/// Which featured opening pack is selected.
#[derive(Clone, Copy, Debug, PartialEq, Eq, Structural)]
pub enum GroupKey {
    QueensGambit,
    ModernDefense,
    ItalianGame,
    CaroKann,
}

/// What is currently selected on the setup screen.
#[derive(Clone, Debug, PartialEq)]
pub enum SelectedEntry {
    /// A featured pack: a matching line is picked at random on start.
    Group(GroupKey),
    /// An opening that is not available yet: the request panel is shown.
    Request(String),
}

/// Where an opening request stands.
#[derive(Clone, Debug, PartialEq)]
pub enum RequestStatus {
    Idle,
    Submitting,
    Success,
    RateLimited,
    QueueClosed,
    Error(String),
}

/// Whether requests are taken at all.
pub const REQUESTS_OPEN: bool = true;

/// How many requests one user may send in a rolling week.
pub const MAX_REQUESTS_PER_WEEK: usize = 2;

/// Whether an opening name belongs to the Queen's Gambit pack: it starts
/// with `Queen's Gambit`, `Slav Defense` or `Semi-Slav Defense`.
pub open spec fn queens_gambit_name(name: Seq<char>) -> bool {
    has_prefix(name, "Queen's Gambit"@) || has_prefix(name, "Slav Defense"@)
        || has_prefix(name, "Semi-Slav Defense"@)
}

/// Whether an opening name belongs to the Modern / Pirc Defense pack.
pub open spec fn modern_defense_name(name: Seq<char>) -> bool {
    has_prefix(name, "Modern Defense"@) || has_prefix(name, "Pirc Defense"@)
}

/// Whether an opening name belongs to the Italian Game pack.
pub open spec fn italian_game_name(name: Seq<char>) -> bool {
    has_prefix(name, "Italian Game"@)
}

/// Whether an opening name belongs to the Caro-Kann Defense pack.
pub open spec fn caro_kann_name(name: Seq<char>) -> bool {
    has_prefix(name, "Caro-Kann Defense"@)
}

/// Whether an opening name belongs to the pack `key`.
pub open spec fn in_group(name: Seq<char>, key: GroupKey) -> bool {
    match key {
        GroupKey::QueensGambit => queens_gambit_name(name),
        GroupKey::ModernDefense => modern_defense_name(name),
        GroupKey::ItalianGame => italian_game_name(name),
        GroupKey::CaroKann => caro_kann_name(name),
    }
}

/// Whether an entry belongs to the Queen's Gambit family.
pub fn is_queens_gambit(e: &OpeningEntry) -> (res: bool)
    ensures
        res == queens_gambit_name(e.name@),
{
    starts_with(e.name.as_str(), "Queen's Gambit") || starts_with(e.name.as_str(), "Slav Defense")
        || starts_with(e.name.as_str(), "Semi-Slav Defense")
}

/// Whether an entry belongs to the Modern Defense / Pirc Defense family.
pub fn is_modern_defense(e: &OpeningEntry) -> (res: bool)
    ensures
        res == modern_defense_name(e.name@),
{
    starts_with(e.name.as_str(), "Modern Defense") || starts_with(e.name.as_str(), "Pirc Defense")
}

/// Whether an entry belongs to the Italian Game family.
pub fn is_italian_game(e: &OpeningEntry) -> (res: bool)
    ensures
        res == italian_game_name(e.name@),
{
    starts_with(e.name.as_str(), "Italian Game")
}

/// Whether an entry belongs to the Caro-Kann Defense family.
pub fn is_caro_kann(e: &OpeningEntry) -> (res: bool)
    ensures
        res == caro_kann_name(e.name@),
{
    starts_with(e.name.as_str(), "Caro-Kann Defense")
}

/// Whether an entry belongs to the pack `key`.
pub fn in_group_exec(e: &OpeningEntry, key: GroupKey) -> (res: bool)
    ensures
        res == in_group(e.name@, key),
{
    match key {
        GroupKey::QueensGambit => is_queens_gambit(e),
        GroupKey::ModernDefense => is_modern_defense(e),
        GroupKey::ItalianGame => is_italian_game(e),
        GroupKey::CaroKann => is_caro_kann(e),
    }
}

/// Every line whose name begins with the name of a family belongs to the
/// pack of that family, and a pack holds nothing else: `Queen's Gambit`,
/// `Slav Defense` and `Semi-Slav Defense` lines form the Queen's Gambit
/// pack; `Modern Defense` and `Pirc Defense` lines the Modern / Pirc pack;
/// `Italian Game` lines the Italian Game pack; `Caro-Kann Defense` lines the
/// Caro-Kann pack.
pub proof fn packs_are_the_name_families(name: Seq<char>)
    ensures
        has_prefix(name, "Queen's Gambit"@) ==> in_group(name, GroupKey::QueensGambit),
        has_prefix(name, "Slav Defense"@) ==> in_group(name, GroupKey::QueensGambit),
        has_prefix(name, "Semi-Slav Defense"@) ==> in_group(name, GroupKey::QueensGambit),
        in_group(name, GroupKey::QueensGambit) ==> has_prefix(name, "Queen's Gambit"@)
            || has_prefix(name, "Slav Defense"@) || has_prefix(name, "Semi-Slav Defense"@),
        has_prefix(name, "Modern Defense"@) ==> in_group(name, GroupKey::ModernDefense),
        has_prefix(name, "Pirc Defense"@) ==> in_group(name, GroupKey::ModernDefense),
        in_group(name, GroupKey::ModernDefense) ==> has_prefix(name, "Modern Defense"@)
            || has_prefix(name, "Pirc Defense"@),
        has_prefix(name, "Italian Game"@) <==> in_group(name, GroupKey::ItalianGame),
        has_prefix(name, "Caro-Kann Defense"@) <==> in_group(name, GroupKey::CaroKann),
{
}

/// A pack selection keeps exactly the book entries of the pack: every entry
/// of the book whose name begins with `Modern Defense` (or with the name of
/// any other family of the pack) is among the selected ones, and every
/// selected entry is a book entry of the pack.
pub proof fn pack_selection_keeps_the_family(
    book: Seq<(Seq<char>, Seq<char>, Seq<char>)>,
    key: GroupKey,
    i: int,
)
    requires
        0 <= i < book.len(),
    ensures
        in_group(book[i].1, key) ==> book.filter(|v: (Seq<char>, Seq<char>, Seq<char>)| in_group(v.1, key)).contains(book[i]),
        book.filter(|v: (Seq<char>, Seq<char>, Seq<char>)| in_group(v.1, key)).contains(book[i])
            ==> in_group(book[i].1, key),
{
    broadcast use vstd::seq_lib::group_filter_ensures;
    let pred = |v: (Seq<char>, Seq<char>, Seq<char>)| in_group(v.1, key);
    if in_group(book[i].1, key) {
        book.lemma_filter_contains(pred, i);
    }
    if book.filter(pred).contains(book[i]) {
        let k = choose|k: int| 0 <= k < book.filter(pred).len() && book.filter(pred)[k] == book[i];
        assert(pred(book.filter(pred)[k]));
    }
}

/// The side the user plays in a pack: White for the Queen's Gambit and the
/// Italian Game, Black for the Modern / Pirc and Caro-Kann defenses.
pub open spec fn group_color(key: GroupKey) -> PieceColor {
    match key {
        GroupKey::QueensGambit => PieceColor::White,
        GroupKey::ModernDefense => PieceColor::Black,
        GroupKey::ItalianGame => PieceColor::White,
        GroupKey::CaroKann => PieceColor::Black,
    }
}

/// The side the user plays in the pack `key`.
pub fn color_for_group(key: &GroupKey) -> (res: PieceColor)
    ensures
        res == group_color(*key),
{
    match key {
        GroupKey::QueensGambit => PieceColor::White,
        GroupKey::ModernDefense => PieceColor::Black,
        GroupKey::ItalianGame => PieceColor::White,
        GroupKey::CaroKann => PieceColor::Black,
    }
}

/// The description shown under the pack selection.
pub open spec fn group_description_spec(key: GroupKey) -> Seq<char> {
    match key {
        GroupKey::QueensGambit => "★ Queen's Gambit Pack — randomly selects from all Queen's Gambit, Slav, and Semi-Slav variations. A different line is chosen each time you click Start."@,
        GroupKey::ModernDefense => "★ Modern / Pirc Defense Pack — randomly selects from all Modern Defense (...g6) and Pirc Defense (...d6) lines. White plays realistic weighted-random responses."@,
        GroupKey::ItalianGame => "★ Italian Game Pack — randomly selects from all Italian Game variations (Giuoco Piano, Evans Gambit, Two Knights). A different line is chosen each game."@,
        GroupKey::CaroKann => "★ Caro-Kann Defense Pack — randomly selects from all Caro-Kann Defense lines (Advance, Classical, Exchange). White plays realistic weighted-random responses."@,
    }
}

/// The description of a selected pack.
pub fn group_description(key: GroupKey) -> (res: &'static str)
    ensures
        res@ == group_description_spec(key),
{
    match key {
        GroupKey::QueensGambit => "★ Queen's Gambit Pack — randomly selects from all Queen's Gambit, Slav, and Semi-Slav variations. A different line is chosen each time you click Start.",
        GroupKey::ModernDefense => "★ Modern / Pirc Defense Pack — randomly selects from all Modern Defense (...g6) and Pirc Defense (...d6) lines. White plays realistic weighted-random responses.",
        GroupKey::ItalianGame => "★ Italian Game Pack — randomly selects from all Italian Game variations (Giuoco Piano, Evans Gambit, Two Knights). A different line is chosen each game.",
        GroupKey::CaroKann => "★ Caro-Kann Defense Pack — randomly selects from all Caro-Kann Defense lines (Advance, Classical, Exchange). White plays realistic weighted-random responses.",
    }
}

/// A copy of a book entry.
pub fn copy_entry(e: &OpeningEntry) -> (res: OpeningEntry)
    ensures
        res@ == e@,
{
    OpeningEntry { eco: e.eco.clone(), name: e.name.clone(), pgn: e.pgn.clone() }
}

/// The book entries of the pack `key`, in book order.
pub fn group_entries(entries: &Vec<OpeningEntry>, key: GroupKey) -> (res: Vec<OpeningEntry>)
    ensures
        entry_views(res@) == entry_views(entries@).filter(
            |v: (Seq<char>, Seq<char>, Seq<char>)| in_group(v.1, key),
        ),
{
    let ghost all = entry_views(entries@);
    let ghost pred = |v: (Seq<char>, Seq<char>, Seq<char>)| in_group(v.1, key);
    let mut out: Vec<OpeningEntry> = Vec::new();
    let n = entries.len();
    for i in 0..n
        invariant
            n == entries@.len(),
            all == entry_views(entries@),
            pred == (|v: (Seq<char>, Seq<char>, Seq<char>)| in_group(v.1, key)),
            entry_views(out@) == all.take(i as int).filter(pred),
    {
        reveal(Seq::filter);
        let e = &entries[i];
        assert(all[i as int] == e@);
        assert(all.take(i + 1).drop_last() == all.take(i as int));
        assert(all.take(i + 1).last() == e@);
        if in_group_exec(e, key) {
            let ghost before = entry_views(out@);
            let c = copy_entry(e);
            out.push(c);
            assert(entry_views(out@) =~= before.push(c@));
        }
    }
    assert(all.take(n as int) == all);
    out
}

/// Starts a game from a pack: `matching` are the pack's entries and `idx`
/// the one drawn. `None` when the draw is past the entries or the drawn line
/// does not replay; else the user's side for the pack, the drawn opening,
/// the entries (kept for the next new game) and the index drawn.
pub fn start_pick(matching: Vec<OpeningEntry>, key: GroupKey, idx: usize) -> (res: Option<(PieceColor, Opening, Vec<OpeningEntry>, usize)>)
    ensures
        idx >= matching@.len() ==> res is None,
        idx < matching@.len() ==> match line_moves(matching@[idx as int].pgn@) {
            Some(ms) => res matches Some((c, o, v, i)) && c == group_color(key) && o.moves@ == ms
                && o.eco@ == matching@[idx as int].eco@ && o.name@ == matching@[idx as int].name@
                && o.pgn@ == matching@[idx as int].pgn@ && entry_views(v@) == entry_views(matching@)
                && i == idx,
            None => res is None,
        },
{
    if idx >= matching.len() {
        return None;
    }
    match parse_opening(&matching[idx]) {
        Some(opening) => Some((color_for_group(&key), opening, matching, idx)),
        None => None,
    }
}

/// The status after the user asks to send a request: closed when requests
/// are not taken or there is no endpoint to send them to, rate limited when
/// no request is left this week, else submitting.
pub open spec fn request_admission_spec(open: bool, configured: bool, remaining: usize) -> RequestStatus {
    if !open || !configured {
        RequestStatus::QueueClosed
    } else if remaining == 0 {
        RequestStatus::RateLimited
    } else {
        RequestStatus::Submitting
    }
}

/// Decides what happens when the user asks to send a request.
pub fn request_admission(open: bool, configured: bool, remaining: usize) -> (res: RequestStatus)
    ensures
        res == request_admission_spec(open, configured, remaining),
{
    if !open || !configured {
        RequestStatus::QueueClosed
    } else if remaining == 0 {
        RequestStatus::RateLimited
    } else {
        RequestStatus::Submitting
    }
}

/// The status once a submission has been answered: success, or the error
/// message.
pub fn request_answered(result: Result<(), String>) -> (res: RequestStatus)
    ensures
        match result {
            Ok(()) => res == RequestStatus::Success,
            Err(m) => res == RequestStatus::Error(m),
        },
{
    match result {
        Ok(()) => RequestStatus::Success,
        Err(m) => RequestStatus::Error(m),
    }
}

/// Requests left this week after `recent` were sent in the last seven days.
pub fn requests_left(recent: usize) -> (res: usize)
    ensures
        res == if recent >= MAX_REQUESTS_PER_WEEK { 0 } else { MAX_REQUESTS_PER_WEEK - recent },
{
    MAX_REQUESTS_PER_WEEK.saturating_sub(recent)
}

/// One opening of the curated list shown while searching.
#[derive(Clone, Copy, Debug)]
pub struct CuratedOpening {
    pub name: &'static str,
    pub description: &'static str,
    /// The featured pack that plays it, if it is available.
    pub group_key: Option<GroupKey>,
}

/// The curated list: ten well-known openings, four of them available as
/// featured packs.
pub fn curated_openings() -> (res: Vec<CuratedOpening>)
    ensures
        res@.len() == 10,
        res@[0].name@ == "Queen's Gambit"@ && res@[0].group_key == Some(GroupKey::QueensGambit),
        res@[1].name@ == "Modern / Pirc Defense"@ && res@[1].group_key == Some(GroupKey::ModernDefense),
        res@[2].name@ == "Sicilian Defense"@ && res@[2].group_key is None,
        res@[3].name@ == "Ruy Lopez"@ && res@[3].group_key is None,
        res@[4].name@ == "French Defense"@ && res@[4].group_key is None,
        res@[5].name@ == "Caro-Kann Defense"@ && res@[5].group_key == Some(GroupKey::CaroKann),
        res@[6].name@ == "King's Indian Defense"@ && res@[6].group_key is None,
        res@[7].name@ == "Nimzo-Indian Defense"@ && res@[7].group_key is None,
        res@[8].name@ == "Italian Game"@ && res@[8].group_key == Some(GroupKey::ItalianGame),
        res@[9].name@ == "London System"@ && res@[9].group_key is None,
{
    let mut v: Vec<CuratedOpening> = Vec::new();
    v.push(CuratedOpening { name: "Queen's Gambit", description: "QGD · QGA · Slav · Semi-Slav · Exchange · Tarrasch", group_key: Some(GroupKey::QueensGambit) });
    v.push(CuratedOpening { name: "Modern / Pirc Defense", description: "Modern ...g6 · Pirc ...d6 · vs 1.e4 · vs 1.d4", group_key: Some(GroupKey::ModernDefense) });
    v.push(CuratedOpening { name: "Sicilian Defense", description: "Open · Najdorf · Dragon · Scheveningen", group_key: None });
    v.push(CuratedOpening { name: "Ruy Lopez", description: "Berlin · Morphy · Closed · Exchange", group_key: None });
    v.push(CuratedOpening { name: "French Defense", description: "Winawer · Tarrasch · Advance · Classical", group_key: None });
    v.push(CuratedOpening { name: "Caro-Kann Defense", description: "Advance · Classical · Exchange", group_key: Some(GroupKey::CaroKann) });
    v.push(CuratedOpening { name: "King's Indian Defense", description: "Classical · Sämisch · Four Pawns", group_key: None });
    v.push(CuratedOpening { name: "Nimzo-Indian Defense", description: "Rubinstein · Classical · Hübner", group_key: None });
    v.push(CuratedOpening { name: "Italian Game", description: "Giuoco Piano · Evans Gambit · Two Knights", group_key: Some(GroupKey::ItalianGame) });
    v.push(CuratedOpening { name: "London System", description: "Bf4 systems · Anti-everything repertoire", group_key: None });
    v
}

/// Indices, ascending, of the names in `names` that contain `query`.
pub open spec fn indices_containing(names: Seq<Seq<char>>, query: Seq<char>) -> Seq<usize>
    decreases names.len(),
{
    if names.len() == 0 {
        seq![]
    } else {
        let rest = indices_containing(names.drop_last(), query);
        if has_substring(names.last(), query) {
            rest.push((names.len() - 1) as usize)
        } else {
            rest
        }
    }
}

/// Indices of the names (already lower-cased) that contain the query
/// (already lower-cased).
pub fn names_containing(names: &Vec<String>, query: &str) -> (res: Vec<usize>)
    ensures
        res@ == indices_containing(string_views(names@), query@),
{
    let ghost all = string_views(names@);
    let mut out: Vec<usize> = Vec::new();
    let n = names.len();
    for i in 0..n
        invariant
            n == names@.len(),
            all == string_views(names@),
            out@ == indices_containing(all.take(i as int), query@),
    {
        assert(all.take(i + 1).drop_last() == all.take(i as int));
        assert(all.take(i + 1).last() == names@[i as int]@);
        if contains_str(names[i].as_str(), query) {
            out.push(i);
        }
    }
    assert(all.take(n as int) == all);
    out
}

/// The lower-cased names of the curated list.
pub open spec fn curated_lower_names(list: Seq<CuratedOpening>) -> Seq<Seq<char>> {
    list.map_values(|c: CuratedOpening| lowercase(c.name@))
}

/// The search over the curated list: `None` (no dropdown) when the
/// lower-cased search text is empty, else the indices of the curated
/// openings whose lower-cased name contains it.
pub fn curated_search(list: &Vec<CuratedOpening>, search: &str) -> (res: Option<Vec<usize>>)
    ensures
        lowercase(search@).len() == 0 ==> res is None,
        lowercase(search@).len() > 0 ==> (res matches Some(v)
            && v@ == indices_containing(curated_lower_names(list@), lowercase(search@))),
{
    let query = to_lowercase(search);
    if query.as_str().is_empty() {
        return None;
    }
    let mut names: Vec<String> = Vec::new();
    let n = list.len();
    for i in 0..n
        invariant
            n == list@.len(),
            string_views(names@) == curated_lower_names(list@).take(i as int),
    {
        let l = to_lowercase(list[i].name);
        let ghost before = string_views(names@);
        names.push(l);
        assert(string_views(names@) =~= before.push(l@));
        assert(curated_lower_names(list@).take(i + 1) =~= curated_lower_names(list@).take(i as int).push(l@));
    }
    assert(curated_lower_names(list@).take(n as int) =~= curated_lower_names(list@));
    Some(names_containing(&names, query.as_str()))
}

/// What the request panel shows.
#[derive(Clone, Debug, PartialEq)]
pub enum RequestPanel {
    /// The request went through.
    Submitted,
    /// The request is on its way.
    Submitting,
    /// Both requests of the week are used.
    RateLimited,
    /// Requests are closed.
    Closed,
    /// Sending failed with this message.
    Failed(String),
    /// The request button, with the requests left this week; the button is
    /// disabled while the name is empty.
    Offer { remaining: usize, enabled: bool },
}

/// The request panel for a status: the status's own message, or, while
/// idle, the same decision as [`request_admission`] and else the request button.
pub open spec fn request_panel_spec(
    status: RequestStatus,
    open: bool,
    configured: bool,
    remaining: usize,
    name_empty: bool,
) -> RequestPanel {
    match status {
        RequestStatus::Success => RequestPanel::Submitted,
        RequestStatus::Submitting => RequestPanel::Submitting,
        RequestStatus::RateLimited => RequestPanel::RateLimited,
        RequestStatus::QueueClosed => RequestPanel::Closed,
        RequestStatus::Error(m) => RequestPanel::Failed(m),
        RequestStatus::Idle => if !open || !configured {
            RequestPanel::Closed
        } else if remaining == 0 {
            RequestPanel::RateLimited
        } else {
            RequestPanel::Offer { remaining, enabled: !name_empty }
        },
    }
}

/// Decides what the request panel shows.
pub fn request_panel(
    status: &RequestStatus,
    open: bool,
    configured: bool,
    remaining: usize,
    name_empty: bool,
) -> (res: RequestPanel)
    ensures
        res == request_panel_spec(*status, open, configured, remaining, name_empty),
{
    match status {
        RequestStatus::Success => RequestPanel::Submitted,
        RequestStatus::Submitting => RequestPanel::Submitting,
        RequestStatus::RateLimited => RequestPanel::RateLimited,
        RequestStatus::QueueClosed => RequestPanel::Closed,
        RequestStatus::Error(m) => RequestPanel::Failed(m.clone()),
        RequestStatus::Idle => if !open || !configured {
            RequestPanel::Closed
        } else if remaining == 0 {
            RequestPanel::RateLimited
        } else {
            RequestPanel::Offer { remaining, enabled: !name_empty }
        },
    }
}

/// While idle, the panel offers the button exactly when sending would be
/// admitted: the panel and the admission agree.
pub proof fn panel_offers_iff_request_admitted(open: bool, configured: bool, remaining: usize, name_empty: bool)
    ensures
        (request_panel_spec(RequestStatus::Idle, open, configured, remaining, name_empty) is Offer)
            == (request_admission_spec(open, configured, remaining) == RequestStatus::Submitting),
{
}

/// Accent colour of the setup screen.
pub const ACCENT: &'static str = "#c9a96e";
/// Border colour of the setup screen.
pub const BORDER: &'static str = "#6b3a2a";
/// Panel background of the setup screen.
pub const PANEL: &'static str = "#2a1a12";
/// Background of a selected card.
pub const SELECTED: &'static str = "#8b4a1a";
/// Button background.
pub const BTN_BG: &'static str = "#6b3a2a";
/// Text colour.
pub const TEXT: &'static str = "#f0d9b5";

/// Style of a featured pack card: accent border and darker background when
/// selected.
pub fn featured_card_style(selected: bool) -> (res: String)
    ensures
        res@ == "display:flex; flex-direction:column; align-items:center; padding:0.75rem 1rem; border:2px solid "@
            + (if selected { ACCENT@ } else { BORDER@ }) + "; background:"@
            + (if selected { SELECTED@ } else { PANEL@ })
            + "; cursor:pointer; min-width:200px; max-width:240px; text-align:center;"@,
{
    let border = if selected { ACCENT } else { BORDER };
    let bg = if selected { SELECTED } else { PANEL };
    let mut s = "display:flex; flex-direction:column; align-items:center; padding:0.75rem 1rem; border:2px solid ".to_owned();
    s.append(border);
    s.append("; background:");
    s.append(bg);
    s.append("; cursor:pointer; min-width:200px; max-width:240px; text-align:center;");
    s
}

/// Style of an action button: dimmed when disabled.
pub fn action_btn_style(enabled: bool) -> (res: String)
    ensures
        res@ == "background:"@ + BTN_BG@ + "; color:"@ + TEXT@ + "; border:1px solid "@ + ACCENT@
            + "; padding:0.5rem 1.5rem; font-family:'Courier New', monospace; font-size:0.9rem; letter-spacing:0.1em; cursor:pointer; text-transform:uppercase; opacity:"@
            + (if enabled { "1.0"@ } else { "0.4"@ }) + ";"@,
{
    let opacity = if enabled { "1.0" } else { "0.4" };
    let mut s = "background:".to_owned();
    s.append(BTN_BG);
    s.append("; color:");
    s.append(TEXT);
    s.append("; border:1px solid ");
    s.append(ACCENT);
    s.append("; padding:0.5rem 1.5rem; font-family:'Courier New', monospace; font-size:0.9rem; letter-spacing:0.1em; cursor:pointer; text-transform:uppercase; opacity:");
    s.append(opacity);
    s.append(";");
    s
}

} // verus!
