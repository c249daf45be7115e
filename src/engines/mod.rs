use vstd::prelude::*;
use crate::request::ConfigView;

pub mod hyper;
pub mod reqwasm;
pub mod reqwest;

verus! {

/// The builder calls that every backend's client offers.
pub trait Setter: Sized {
    spec fn setter_config(&self) -> ConfigView;

    fn set_url(&mut self, url: &str) -> (r: Self)
        ensures
            final(self).setter_config() == old(self).setter_config().with_url(url@),
            r.setter_config() == final(self).setter_config(),
    ;

    fn set_user_agent(&mut self, user_agent: &str) -> (r: Self)
        ensures
            final(self).setter_config() == old(self).setter_config().with_agent(user_agent@),
            r.setter_config() == final(self).setter_config(),
    ;

    fn set_content_type(&mut self, content_type: &str) -> (r: Self)
        ensures
            final(self).setter_config() == old(self).setter_config().with_content_type(
                content_type@,
            ),
            r.setter_config() == final(self).setter_config(),
    ;
}

} // verus!
