use vstd::prelude::*;

verus! {

/// Mathematical image of a cached DNS entry: the record id and the address
/// currently published under it.
pub struct EntryView {
    pub id: Seq<char>,
    pub ip_address: Seq<char>,
}

/// A DNS record as the reconciliation loop caches it between cycles.
///
/// `id` is the identifier the provider assigned to the record; it never
/// changes once the entry exists. `ip_address` is the address on file, and is
/// replaced only after a confirmed successful update.
pub struct CloudflareDnsEntry {
    pub id: String,
    pub ip_address: String,
}

impl View for CloudflareDnsEntry {
    type V = EntryView;

    open spec fn view(&self) -> EntryView {
        EntryView { id: self.id@, ip_address: self.ip_address@ }
    }
}

} // verus!
