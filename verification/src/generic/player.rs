//! A player of a generic (scripted) instance.
use vstd::prelude::*;

verus! {

#[derive(Debug, PartialEq, Eq, Hash)]
pub struct GenericPlayer {
    pub id: String,
    pub name: String,
}

pub struct GenericPlayerView {
    pub id: Seq<char>,
    pub name: Seq<char>,
}

impl View for GenericPlayer {
    type V = GenericPlayerView;

    open spec fn view(&self) -> GenericPlayerView {
        GenericPlayerView { id: self.id@, name: self.name@ }
    }
}

impl Clone for GenericPlayer {
    fn clone(&self) -> (r: Self)
        ensures
            r == *self,
    {
        GenericPlayer { id: self.id.clone(), name: self.name.clone() }
    }
}

impl GenericPlayer {
    pub fn get_id(&self) -> (s: String)
        ensures
            s@ == self.id@,
    {
        self.id.clone()
    }

    pub fn get_name(&self) -> (s: String)
        ensures
            s@ == self.name@,
    {
        self.name.clone()
    }
}

} // verus!
