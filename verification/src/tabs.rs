use vstd::prelude::*;

verus! {

/// Identifier of a tracked tab: opaque, assigned at creation, never reused
/// while the tab's manager lives.
pub type TabId = String;

/// One logical browsing unit tracked by the manager, independent of any
/// tab notion of the spawned browser process itself.
#[derive(Debug, PartialEq, Eq)]
pub struct Tab {
    pub id: TabId,
    pub url: String,
    pub title: String,
    pub favicon: Option<String>,
    pub position: i32,
    pub is_active: bool,
}

impl Clone for Tab {
    fn clone(&self) -> (r: Self)
        ensures
            r == *self,
    {
        Tab {
            id: self.id.clone(),
            url: self.url.clone(),
            title: self.title.clone(),
            favicon: clone_opt_string(&self.favicon),
            position: self.position,
            is_active: self.is_active,
        }
    }
}

/// A request to point a tab at a new address.
#[derive(Debug, PartialEq, Eq)]
pub struct NavigationRequest {
    pub url: String,
}

impl Clone for NavigationRequest {
    fn clone(&self) -> (r: Self)
        ensures
            r == *self,
    {
        NavigationRequest { url: self.url.clone() }
    }
}

pub(crate) fn clone_opt_string(o: &Option<String>) -> (r: Option<String>)
    ensures
        r == *o,
{
    match o {
        Some(s) => Some(s.clone()),
        None => None,
    }
}

} // verus!
