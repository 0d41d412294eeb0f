use vstd::prelude::*;
use vstd::string::StringExecFns;
use crate::counter::Counter;
use crate::error::Error;
use crate::event::Rect;
use crate::icon::Icon;
use crate::tray_icon_id::{decimal, lemma_numbered_ids_distinct, TrayIconId};

verus! {

/// Attributes to use when creating a tray icon; `M` is the context menu type.
pub struct TrayIconAttributes<M> {
    /// Tray icon tooltip.
    pub tooltip: Option<String>,
    /// Tray menu.
    pub menu: Option<M>,
    /// Tray icon.
    pub icon: Option<Icon>,
    /// Whether to show the tray menu on left click or not, default is `true`.
    pub menu_on_left_click: bool,
}

impl<M> TrayIconAttributes<M> {
    /// No tooltip, menu or icon, and the menu shown on left click.
    pub open spec fn is_default(&self) -> bool {
        &&& self.tooltip is None
        &&& self.menu is None
        &&& self.icon is None
        &&& self.menu_on_left_click
    }
}

impl<M> Default for TrayIconAttributes<M> {
    fn default() -> (r: TrayIconAttributes<M>)
        ensures
            r.is_default(),
    {
        TrayIconAttributes { tooltip: None, menu: None, icon: None, menu_on_left_click: true }
    }
}

/// The operating system's side of one tray icon: it registers the icon with
/// the shell on `create` and releases it when dropped.
pub trait PlatformTray: Sized {
    type Menu;

    fn create(id: TrayIconId, attrs: TrayIconAttributes<Self::Menu>) -> Result<Self, Error>;

    fn set_icon(&mut self, icon: Option<Icon>) -> Result<(), Error>;

    fn set_menu(&mut self, menu: Option<Self::Menu>);

    fn set_tooltip(&mut self, tooltip: Option<String>) -> Result<(), Error>;

    fn set_visible(&mut self, visible: bool) -> Result<(), Error>;

    fn set_show_menu_on_left_click(&mut self, enable: bool);

    fn rect(&self) -> Option<Rect>;
}

/// Gathers a tray icon's identifier and attributes before it is built.
pub struct TrayIconBuilder<M> {
    id: TrayIconId,
    attrs: TrayIconAttributes<M>,
}

impl<M> TrayIconBuilder<M> {
    /// The identifier that the built icon will carry.
    pub closed spec fn spec_id(&self) -> TrayIconId {
        self.id
    }

    /// The attributes gathered so far.
    pub closed spec fn spec_attrs(&self) -> TrayIconAttributes<M> {
        self.attrs
    }

    /// A builder with default attributes and a fresh identifier from `ids`.
    pub fn new(ids: &mut Counter) -> (r: Self)
        requires
            old(ids).can_issue(),
        ensures
            Counter::issued(*old(ids), *final(ids), old(ids).upcoming() as u32),
            r.spec_id().0@ == decimal(old(ids).upcoming()),
            r.spec_attrs().is_default(),
    {
        let n = ids.next();
        TrayIconBuilder { id: TrayIconId::from_number(n), attrs: TrayIconAttributes::default() }
    }

    /// Sets the identifier to build the tray icon with.
    pub fn with_id(self, id: TrayIconId) -> (r: Self)
        ensures
            r.spec_id() == id,
            r.spec_attrs() == self.spec_attrs(),
    {
        TrayIconBuilder { id, attrs: self.attrs }
    }

    /// Sets the context menu.
    pub fn with_menu(self, menu: M) -> (r: Self)
        ensures
            r.spec_id() == self.spec_id(),
            r.spec_attrs() == (TrayIconAttributes { menu: Some(menu), ..self.spec_attrs() }),
    {
        let mut attrs = self.attrs;
        attrs.menu = Some(menu);
        TrayIconBuilder { id: self.id, attrs }
    }

    /// Sets the icon.
    pub fn with_icon(self, icon: Icon) -> (r: Self)
        ensures
            r.spec_id() == self.spec_id(),
            r.spec_attrs() == (TrayIconAttributes { icon: Some(icon), ..self.spec_attrs() }),
    {
        let mut attrs = self.attrs;
        attrs.icon = Some(icon);
        TrayIconBuilder { id: self.id, attrs }
    }

    /// Sets the tooltip.
    pub fn with_tooltip(self, s: &str) -> (r: Self)
        ensures
            r.spec_id() == self.spec_id(),
            r.spec_attrs().tooltip matches Some(t) && t@ == s@,
            r.spec_attrs().menu == self.spec_attrs().menu,
            r.spec_attrs().icon == self.spec_attrs().icon,
            r.spec_attrs().menu_on_left_click == self.spec_attrs().menu_on_left_click,
    {
        let mut attrs = self.attrs;
        attrs.tooltip = Some(String::from_str(s));
        TrayIconBuilder { id: self.id, attrs }
    }

    /// Whether to show the tray menu on left click.
    pub fn with_menu_on_left_click(self, enable: bool) -> (r: Self)
        ensures
            r.spec_id() == self.spec_id(),
            r.spec_attrs() == (TrayIconAttributes { menu_on_left_click: enable, ..self.spec_attrs() }),
    {
        let mut attrs = self.attrs;
        attrs.menu_on_left_click = enable;
        TrayIconBuilder { id: self.id, attrs }
    }

    /// The identifier that the built icon will carry.
    pub fn id(&self) -> (r: &TrayIconId)
        ensures
            *r == self.spec_id(),
    {
        &self.id
    }

    /// The identifier and the attributes, for building the icon elsewhere.
    pub fn into_parts(self) -> (r: (TrayIconId, TrayIconAttributes<M>))
        ensures
            r.0 == self.spec_id(),
            r.1 == self.spec_attrs(),
    {
        (self.id, self.attrs)
    }

    /// Builds the tray icon and adds it to the system tray.
    pub fn build<P: PlatformTray<Menu = M>>(self) -> (r: Result<TrayIcon<P>, Error>)
        ensures
            r matches Ok(t) ==> t.spec_id() == self.spec_id(),
    {
        TrayIcon::with_id(self.id, self.attrs)
    }
}

impl<M> Default for TrayIconBuilder<M> {
    /// A builder with the empty identifier and default attributes.
    fn default() -> (r: TrayIconBuilder<M>)
        ensures
            r.spec_id().0@ == Seq::<char>::empty(),
            r.spec_attrs().is_default(),
    {
        TrayIconBuilder { id: TrayIconId::default(), attrs: TrayIconAttributes::default() }
    }
}

/// A tray icon: its identifier and the platform object that shows it.
pub struct TrayIcon<P> {
    id: TrayIconId,
    tray: P,
}

impl<P: PlatformTray> TrayIcon<P> {
    /// The identifier of this tray icon.
    pub closed spec fn spec_id(&self) -> TrayIconId {
        self.id
    }

    /// Builds a tray icon with a fresh identifier from `ids` and adds it to
    /// the system tray.
    pub fn new(ids: &mut Counter, attrs: TrayIconAttributes<P::Menu>) -> (r: Result<Self, Error>)
        requires
            old(ids).can_issue(),
        ensures
            Counter::issued(*old(ids), *final(ids), old(ids).upcoming() as u32),
            r matches Ok(t) ==> t.spec_id().0@ == decimal(old(ids).upcoming()),
    {
        let n = ids.next();
        Self::with_id(TrayIconId::from_number(n), attrs)
    }

    /// Builds a tray icon with the given identifier and adds it to the system tray.
    pub fn with_id(id: TrayIconId, attrs: TrayIconAttributes<P::Menu>) -> (r: Result<Self, Error>)
        ensures
            r matches Ok(t) ==> t.spec_id() == id,
    {
        let tray = P::create(id.clone(), attrs)?;
        Ok(TrayIcon { id, tray })
    }

    /// Returns the id associated with this tray icon.
    pub fn id(&self) -> (r: &TrayIconId)
        ensures
            *r == self.spec_id(),
    {
        &self.id
    }

    /// Sets a new icon; `None` removes it.
    pub fn set_icon(&mut self, icon: Option<Icon>) -> (r: Result<(), Error>)
        ensures
            final(self).spec_id() == old(self).spec_id(),
    {
        self.tray.set_icon(icon)
    }

    /// Sets a new tray menu.
    pub fn set_menu(&mut self, menu: Option<P::Menu>)
        ensures
            final(self).spec_id() == old(self).spec_id(),
    {
        self.tray.set_menu(menu)
    }

    /// Sets the tooltip.
    pub fn set_tooltip(&mut self, tooltip: Option<&str>) -> (r: Result<(), Error>)
        ensures
            final(self).spec_id() == old(self).spec_id(),
    {
        let text = match tooltip {
            Some(s) => Some(String::from_str(s)),
            None => None,
        };
        self.tray.set_tooltip(text)
    }

    /// Shows or hides the tray icon.
    pub fn set_visible(&mut self, visible: bool) -> (r: Result<(), Error>)
        ensures
            final(self).spec_id() == old(self).spec_id(),
    {
        self.tray.set_visible(visible)
    }

    /// Disables or enables showing the tray menu on left click.
    pub fn set_show_menu_on_left_click(&mut self, enable: bool)
        ensures
            final(self).spec_id() == old(self).spec_id(),
    {
        self.tray.set_show_menu_on_left_click(enable)
    }

    /// The tray icon's position and size, where the platform knows them.
    pub fn rect(&self) -> Option<Rect> {
        self.tray.rect()
    }
}

/// An identifier that `TrayIconBuilder::new` or `TrayIcon::new` draws from a
/// counter differs from every identifier drawn from it before, and its number
/// is larger than each of theirs.
pub proof fn lemma_drawn_id_is_new(
    ids: Counter,
    earlier_numbers: Seq<u32>,
    earlier_ids: Seq<TrayIconId>,
    fresh: TrayIconId,
)
    requires
        ids.can_issue(),
        earlier_numbers.len() == earlier_ids.len(),
        forall|i: int| 0 <= i < earlier_numbers.len() ==> (earlier_numbers[i] as nat) < ids.upcoming(),
        forall|i: int| 0 <= i < earlier_ids.len() ==> #[trigger] earlier_ids[i].0@ == decimal(earlier_numbers[i] as nat),
        fresh.0@ == decimal(ids.upcoming()),
    ensures
        forall|i: int| 0 <= i < earlier_ids.len() ==> fresh.0@ != #[trigger] earlier_ids[i].0@
            && (earlier_numbers[i] as nat) < ids.upcoming(),
{
    assert forall|i: int| 0 <= i < earlier_ids.len() implies fresh.0@ != #[trigger] earlier_ids[i].0@ by {
        assert(earlier_ids[i].0@ == decimal(earlier_numbers[i] as nat));
        lemma_numbered_ids_distinct(ids.upcoming() as u32, earlier_numbers[i], fresh, earlier_ids[i]);
    }
}

} // verus!
