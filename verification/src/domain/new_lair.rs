//! A listing that passed validation.

use crate::domain::lair_description::LairDescription;
use crate::domain::lair_image::LairImage;
use crate::domain::lair_lat::{is_nan, LairLat};
use crate::domain::lair_lon::LairLon;
use crate::domain::lair_title::LairTitle;
use vstd::prelude::*;

verus! {

/// The listing that a form describes.
pub struct NewLair {
    pub title: LairTitle,
    pub description: LairDescription,
    pub image: LairImage,
    pub lon: LairLon,
    pub lat: LairLat,
}

/// What rejects the fields of a form, if anything does: the message of the
/// first field that is not valid, in the order title, description, image,
/// longitude, latitude.
pub open spec fn first_rejection(
    title: Seq<char>,
    description: Seq<char>,
    image: Seq<char>,
    lon: u64,
    lat: u64,
) -> Option<Seq<char>> {
    if !LairTitle::valid(title) {
        Some(LairTitle::rejection(title))
    } else if !LairDescription::valid(description) {
        Some(LairDescription::rejection(description))
    } else if !LairImage::valid(image) {
        Some(LairImage::rejection(image))
    } else if is_nan(lon) {
        Some(LairLon::rejection())
    } else if is_nan(lat) {
        Some(LairLat::rejection())
    } else {
        None
    }
}

impl NewLair {
    /// Accepts the fields of a form, or gives back the message of the first
    /// field that is not valid. The coordinates are given as the bits of
    /// doubles.
    pub fn try_from(title: String, description: String, image: String, lon: u64, lat: u64) -> (r:
        Result<NewLair, String>)
        ensures
            match r {
                Ok(lair) => {
                    &&& first_rejection(title@, description@, image@, lon, lat) is None
                    &&& lair.title@ == title@
                    &&& lair.description@ == description@
                    &&& lair.image@ == image@
                    &&& lair.lon@ == lon
                    &&& lair.lat@ == lat
                },
                Err(message) => first_rejection(title@, description@, image@, lon, lat) == Some(
                    message@,
                ),
            },
    {
        let title = LairTitle::parse(title)?;
        let description = LairDescription::parse(description)?;
        let image = LairImage::parse(image)?;
        let lon = LairLon::parse(lon)?;
        let lat = LairLat::parse(lat)?;
        Ok(NewLair { title, description, image, lon, lat })
    }
}

} // verus!
