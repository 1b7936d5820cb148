//! The profile of the logged-in user.
use vstd::prelude::*;

verus! {

#[derive(Debug, Clone)]
pub struct ExplicitContent {
    pub filter_enabled: bool,
    pub filter_locked: bool,
}

#[derive(Debug, Clone)]
pub struct ExternalUrls {
    pub spotify: String,
}

#[derive(Debug, Clone)]
pub struct Followers {
    pub href: Option<String>,
    pub total: u32,
}

#[derive(Debug, Clone)]
pub struct Image {
    pub url: String,
    pub height: u32,
    pub width: u32,
}

#[derive(Debug, Clone)]
pub struct UserProfile {
    pub country: String,
    pub display_name: String,
    pub email: String,
    pub explicit_content: ExplicitContent,
    pub external_urls: ExternalUrls,
    pub followers: Followers,
    pub href: String,
    pub id: String,
    pub images: Vec<Image>,
    pub product: String,
    pub type_: Option<String>,
    pub uri: String,
}

} // verus!
