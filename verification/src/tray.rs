//! The tray icon: its menu, the events its entries send, and the icon's
//! pixels in the byte order the tray protocol expects.
use vstd::prelude::*;
use crate::app::AppEvent;

verus! {

/// What a tray menu entry sends to the launcher.
#[derive(Debug, Clone, Copy, PartialEq, Eq, Structural)]
pub enum TrayMessage {
    Show,
    LaunchGame,
    LaunchAll,
    Quit,
}

/// The launcher event for a tray message.
pub open spec fn event_of(msg: TrayMessage) -> AppEvent {
    match msg {
        TrayMessage::Show => AppEvent::TrayShowRequested,
        TrayMessage::LaunchGame => AppEvent::TrayLaunchGame,
        TrayMessage::LaunchAll => AppEvent::TrayLaunchAll,
        TrayMessage::Quit => AppEvent::TrayQuitRequested,
    }
}

/// The launcher event for `msg`.
pub fn to_event(msg: TrayMessage) -> (ev: AppEvent)
    ensures
        ev == event_of(msg),
{
    match msg {
        TrayMessage::Show => AppEvent::TrayShowRequested,
        TrayMessage::LaunchGame => AppEvent::TrayLaunchGame,
        TrayMessage::LaunchAll => AppEvent::TrayLaunchAll,
        TrayMessage::Quit => AppEvent::TrayQuitRequested,
    }
}

/// What choosing a menu entry does.
#[derive(Debug, Clone, Copy, PartialEq, Eq, Structural)]
pub enum MenuAction {
    /// Send the message to the launcher.
    Send(TrayMessage),
    /// End the process at once.
    ExitProcess,
}

/// An entry of the tray menu.
#[derive(Debug)]
pub enum MenuEntry {
    Item { label: String, action: MenuAction },
    Separator,
}

/// The tray's identifier.
pub fn tray_id() -> (res: &'static str)
    ensures
        res@ == "sekiro-launcher"@,
{
    "sekiro-launcher"
}

/// The tray's title.
pub fn tray_title() -> (res: &'static str)
    ensures
        res@ == "Sekiro Launcher"@,
{
    "Sekiro Launcher"
}

/// The entry labelled `label` that does `action`.
pub open spec fn item_is(e: MenuEntry, label: Seq<char>, action: MenuAction) -> bool {
    e matches MenuEntry::Item { label: l, action: a } && l@ == label && a == action
}

/// The tray menu: Show Launcher, Launch Game, Launch All, a separator, and
/// Quit, which ends the process.
pub fn menu() -> (res: Vec<MenuEntry>)
    ensures
        res@.len() == 5,
        item_is(res@[0], "Show Launcher"@, MenuAction::Send(TrayMessage::Show)),
        item_is(res@[1], "Launch Game"@, MenuAction::Send(TrayMessage::LaunchGame)),
        item_is(res@[2], "Launch All"@, MenuAction::Send(TrayMessage::LaunchAll)),
        res@[3] is Separator,
        item_is(res@[4], "Quit"@, MenuAction::ExitProcess),
{
    let mut v: Vec<MenuEntry> = Vec::new();
    v.push(MenuEntry::Item { label: String::from_str("Show Launcher"), action: MenuAction::Send(TrayMessage::Show) });
    v.push(MenuEntry::Item { label: String::from_str("Launch Game"), action: MenuAction::Send(TrayMessage::LaunchGame) });
    v.push(MenuEntry::Item { label: String::from_str("Launch All"), action: MenuAction::Send(TrayMessage::LaunchAll) });
    v.push(MenuEntry::Separator);
    v.push(MenuEntry::Item { label: String::from_str("Quit"), action: MenuAction::ExitProcess });
    v
}

/// What the `image` crate decodes from `bytes`: width, height and RGBA
/// pixels, or nothing when the bytes are no image it reads.
pub uninterp spec fn decoded_rgba(bytes: Seq<u8>) -> Option<(u32, u32, Seq<u8>)>;

/// Decodes `bytes` with `image::load_from_memory` and converts the image to
/// 8-bit RGBA (`into_rgba8`). The result is named, not stated: it is what
/// the decoder reads.
#[verifier::external_body]
fn decode_rgba(bytes: &[u8]) -> (res: Option<(u32, u32, Vec<u8>)>)
    ensures
        match res {
            Some(r) => decoded_rgba(bytes@) == Some((r.0, r.1, r.2@)),
            None => decoded_rgba(bytes@) is None,
        },
{
    let img = image::load_from_memory(bytes).ok()?.into_rgba8();
    let (w, h) = img.dimensions();
    Some((w, h, img.into_raw()))
}

/// A tray icon: ARGB32 pixels in network byte order.
#[derive(Debug)]
pub struct TrayIcon {
    pub width: i32,
    pub height: i32,
    pub data: Vec<u8>,
}

/// `rgba` with each whole group of four bytes turned from RGBA to ARGB (the
/// last byte of the group moves to its front); a shorter tail stays.
pub open spec fn argb_of(rgba: Seq<u8>) -> Seq<u8> {
    let whole = rgba.len() - rgba.len() % 4;
    Seq::new(rgba.len(), |i: int| if i < whole {
        rgba[i - i % 4 + (i % 4 + 3) % 4]
    } else {
        rgba[i]
    })
}

/// The pixels `rgba` in ARGB order.
pub fn to_argb(rgba: Vec<u8>) -> (res: Vec<u8>)
    ensures
        res@ == argb_of(rgba@),
{
    let n = rgba.len();
    let whole = n - n % 4;
    let mut out: Vec<u8> = Vec::new();
    let mut i: usize = 0;
    while i < n
        invariant
            i <= n,
            n == rgba@.len(),
            whole == n - n % 4,
            out@.len() == i,
            forall|k: int| 0 <= k < i ==> out@[k] == argb_of(rgba@)[k],
        decreases n - i,
    {
        let b = if i < whole {
            let base = i - i % 4;
            rgba[base + (i % 4 + 3) % 4]
        } else {
            rgba[i]
        };
        out.push(b);
        i = i + 1;
    }
    assert(out@ =~= argb_of(rgba@));
    out
}

/// The tray icon decoded from the image file `image_bytes`, or `None` when
/// the bytes are no image.
pub fn load_icon(image_bytes: &[u8]) -> (res: Option<TrayIcon>)
    ensures
        match decoded_rgba(image_bytes@) {
            None => res is None,
            Some((w, h, px)) => res matches Some(icon) && icon.width == w as i32 && icon.height == h as i32
                && icon.data@ == argb_of(px),
        },
{
    match decode_rgba(image_bytes) {
        None => None,
        Some((w, h, px)) => Some(TrayIcon { width: w as i32, height: h as i32, data: to_argb(px) }),
    }
}

} // verus!
