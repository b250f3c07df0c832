//! The channels of the upstream playlist, by title.
use dashmap::DashMap;
use vstd::prelude::*;

verus! {

/// The guide attributes of a channel.
#[derive(Debug)]
pub struct Tvg {
    pub id: String,
    pub name: String,
}

/// What the upstream playlist says of a channel.
#[derive(Debug)]
pub struct Info {
    pub title: String,
    pub logo: String,
    pub url: String,
    pub category: String,
    pub tvg: Tvg,
}

impl Clone for Info {
    fn clone(&self) -> (r: Self)
        ensures
            r == *self,
    {
        Info {
            title: self.title.clone(),
            logo: self.logo.clone(),
            url: self.url.clone(),
            category: self.category.clone(),
            tvg: Tvg { id: self.tvg.id.clone(), name: self.tvg.name.clone() },
        }
    }
}

/// `dashmap::DashMap`, the concurrent hash map that holds the channels.
#[verifier::external_type_specification]
#[verifier::external_body]
#[verifier::reject_recursive_types(K)]
#[verifier::reject_recursive_types(V)]
#[verifier::reject_recursive_types(S)]
pub struct ExDashMap<K, V, S>(DashMap<K, V, S>);

/// What a channel map holds: from the characters of a title to the channel.
pub uninterp spec fn channel_table(m: DashMap<String, Info>) -> Map<Seq<char>, Info>;

/// `DashMap::new`: a map that holds nothing.
#[verifier::external_body]
pub(crate) fn new_channels() -> (r: DashMap<String, Info>)
    ensures
        (channel_table(r) == Map::<Seq<char>, Info>::empty()),
{
    DashMap::new()
}

/// `DashMap::insert`: the title leads to the channel from now on, whatever it led to before.
#[verifier::external_body]
pub(crate) fn insert_channel(m: &mut DashMap<String, Info>, title: String, info: Info)
    ensures
        channel_table(*final(m)) == channel_table(*old(m)).insert(title@, info),
{
    m.insert(title, info);
}

/// `DashMap::get`: a copy of the channel that the title leads to, if it leads to one.
#[verifier::external_body]
pub(crate) fn get_channel(m: &DashMap<String, Info>, title: &str) -> (r: Option<Info>)
    ensures
        channel_table(*m).dom().contains(title@) ==> r == Some(channel_table(*m)[title@]),
        !channel_table(*m).dom().contains(title@) ==> r is None,
{
    m.get(title).map(|entry| entry.value().clone())
}

} // verus!
