//! TLV (Tag-Length-Value) reading of handshake response payloads.
//!
//! Wire format per entry:
//!   [tag: 1][len: 1][value: len bytes...]
use vstd::prelude::*;
use vstd::slice::slice_subrange;

verus! {

/// The entry starting at `pos`: its tag, its value and the position after
/// it; `None` when the header or the value runs past the end.
pub open spec fn tlv_entry(d: Seq<u8>, pos: int) -> Option<(u8, Seq<u8>, int)> {
    if pos + 2 > d.len() {
        None
    } else if pos + 2 + d[pos + 1] > d.len() {
        None
    } else {
        Some((d[pos], d.subrange(pos + 2, pos + 2 + d[pos + 1]), pos + 2 + d[pos + 1]))
    }
}

/// All complete entries from `pos` on, in order.
pub open spec fn tlv_entries(d: Seq<u8>, pos: int) -> Seq<(u8, Seq<u8>)>
    decreases d.len() - pos,
{
    if 0 <= pos && pos + 2 <= d.len() && pos + 2 + d[pos + 1] <= d.len() {
        seq![(d[pos], d.subrange(pos + 2, pos + 2 + d[pos + 1]))] + tlv_entries(
            d,
            pos + 2 + d[pos + 1],
        )
    } else {
        seq![]
    }
}

/// The position where reading entries from `pos` stops.
pub open spec fn tlv_end(d: Seq<u8>, pos: int) -> int
    decreases d.len() - pos,
{
    if 0 <= pos && pos + 2 <= d.len() && pos + 2 + d[pos + 1] <= d.len() {
        tlv_end(d, pos + 2 + d[pos + 1])
    } else {
        pos
    }
}

/// Scanning entries from `pos` for the first one tagged `tag` with a
/// non-empty value: that value's first byte (if found) and the position
/// after the scan.
pub open spec fn tlv_find_int(d: Seq<u8>, pos: int, tag: u8) -> (Option<u8>, int)
    decreases d.len() - pos,
{
    if 0 <= pos && pos + 2 <= d.len() && pos + 2 + d[pos + 1] <= d.len() {
        if d[pos] == tag && d[pos + 1] > 0 {
            (Some(d[pos + 2]), pos + 2 + d[pos + 1])
        } else {
            tlv_find_int(d, pos + 2 + d[pos + 1], tag)
        }
    } else {
        (None, pos)
    }
}

/// Scanning entries from `pos` for the first one tagged `tag`: its value
/// (if found) and the position after the scan.
pub open spec fn tlv_find_bytes(d: Seq<u8>, pos: int, tag: u8) -> (Option<Seq<u8>>, int)
    decreases d.len() - pos,
{
    if 0 <= pos && pos + 2 <= d.len() && pos + 2 + d[pos + 1] <= d.len() {
        if d[pos] == tag {
            (Some(d.subrange(pos + 2, pos + 2 + d[pos + 1])), pos + 2 + d[pos + 1])
        } else {
            tlv_find_bytes(d, pos + 2 + d[pos + 1], tag)
        }
    } else {
        (None, pos)
    }
}

impl<'a> Clone for TlvParser<'a> {
    fn clone(&self) -> (c: Self)
        ensures
            c == *self,
    {
        proof {
            use_type_invariant(self);
        }
        Self { data: self.data, pos: self.pos }
    }
}

/// A cursor over the TLV entries of a payload.
#[derive(Debug)]
pub struct TlvParser<'a> {
    data: &'a [u8],
    pos: usize,
}

impl<'a> TlvParser<'a> {
    #[verifier::type_invariant]
    spec fn inv(self) -> bool {
        self.pos <= self.data@.len()
    }

    /// The payload being read.
    pub closed spec fn data(self) -> Seq<u8> {
        self.data@
    }

    /// The position of the next entry.
    pub closed spec fn pos(self) -> int {
        self.pos as int
    }

    pub fn new(data: &'a [u8]) -> (p: Self)
        ensures
            p.data() == data@,
            p.pos() == 0,
    {
        Self { data, pos: 0 }
    }

    /// The next entry, advancing past it; `None` (and no movement) when no
    /// complete entry is left.
    pub fn next(&mut self) -> (r: Option<(u8, &'a [u8])>)
        ensures
            final(self).data() == old(self).data(),
            0 <= final(self).pos() <= final(self).data().len(),
            match tlv_entry(old(self).data(), old(self).pos()) {
                Some((tag, value, next)) => r matches Some((t, v)) && t == tag && v@ == value
                    && final(self).pos() == next,
                None => r is None && final(self).pos() == old(self).pos(),
            },
    {
        proof {
            use_type_invariant(&*self);
        }
        if self.data.len() - self.pos < 2 {
            return None;
        }
        let tag = self.data[self.pos];
        let len = self.data[self.pos + 1] as usize;
        let val_start = self.pos + 2;
        if len > self.data.len() - val_start {
            return None;
        }
        let value = slice_subrange(self.data, val_start, val_start + len);
        self.pos = val_start + len;
        Some((tag, value))
    }

    /// Reads on until an entry tagged `target_tag` with a non-empty value,
    /// and gives its first byte.
    pub fn get_int(&mut self, target_tag: u8) -> (r: Option<u8>)
        ensures
            final(self).data() == old(self).data(),
            0 <= final(self).pos() <= final(self).data().len(),
            (r, final(self).pos()) == tlv_find_int(old(self).data(), old(self).pos(), target_tag),
    {
        proof {
            use_type_invariant(&*self);
        }
        let ghost d = self.data();
        let ghost start = self.pos();
        loop
            invariant
                d == old(self).data(),
                start == old(self).pos(),
                self.data() == d,
                0 <= self.pos() <= d.len(),
                tlv_find_int(d, start, target_tag) == tlv_find_int(d, self.pos(), target_tag),
            decreases d.len() - self.pos(),
        {
            let ghost before = self.pos();
            match self.next() {
                Some((tag, value)) => {
                    if tag == target_tag && value.len() > 0 {
                        return Some(value[0]);
                    }
                },
                None => {
                    return None;
                },
            }
            assert(self.pos() > before);
        }
    }

    /// Reads on until an entry tagged `target_tag`, and gives its value.
    pub fn get_bytes(&mut self, target_tag: u8) -> (r: Option<&'a [u8]>)
        ensures
            final(self).data() == old(self).data(),
            0 <= final(self).pos() <= final(self).data().len(),
            tlv_find_bytes(old(self).data(), old(self).pos(), target_tag).1 == final(self).pos(),
            match tlv_find_bytes(old(self).data(), old(self).pos(), target_tag).0 {
                Some(v) => r matches Some(s) && s@ == v,
                None => r is None,
            },
    {
        proof {
            use_type_invariant(&*self);
        }
        let ghost d = self.data();
        let ghost start = self.pos();
        loop
            invariant
                d == old(self).data(),
                start == old(self).pos(),
                self.data() == d,
                0 <= self.pos() <= d.len(),
                tlv_find_bytes(d, start, target_tag) == tlv_find_bytes(d, self.pos(), target_tag),
            decreases d.len() - self.pos(),
        {
            let ghost before = self.pos();
            match self.next() {
                Some((tag, value)) => {
                    if tag == target_tag {
                        return Some(value);
                    }
                },
                None => {
                    return None;
                },
            }
            assert(self.pos() > before);
        }
    }

    /// All remaining entries, in order; the cursor ends where reading stops.
    pub fn collect_all(&mut self) -> (entries: Vec<(u8, &'a [u8])>)
        ensures
            final(self).data() == old(self).data(),
            final(self).pos() == tlv_end(old(self).data(), old(self).pos()),
            entries@.len() == tlv_entries(old(self).data(), old(self).pos()).len(),
            forall|i: int|
                0 <= i < entries@.len() ==> (#[trigger] entries@[i]).0 == tlv_entries(
                    old(self).data(),
                    old(self).pos(),
                )[i].0 && entries@[i].1@ == tlv_entries(old(self).data(), old(self).pos())[i].1,
    {
        proof {
            use_type_invariant(&*self);
        }
        let ghost d = self.data();
        let ghost start = self.pos();
        let mut entries: Vec<(u8, &'a [u8])> = Vec::new();
        loop
            invariant
                d == old(self).data(),
                start == old(self).pos(),
                self.data() == d,
                0 <= start <= self.pos() <= d.len(),
                tlv_end(d, start) == tlv_end(d, self.pos()),
                tlv_entries(d, start) == entries@.map_values(|e: (u8, &'a [u8])| (e.0, e.1@))
                    + tlv_entries(d, self.pos()),
            decreases d.len() - self.pos(),
        {
            let ghost before = self.pos();
            let ghost old_entries = entries@;
            match self.next() {
                Some(entry) => {
                    entries.push(entry);
                    assert(entries@.map_values(|e: (u8, &'a [u8])| (e.0, e.1@)) =~= old_entries.map_values(
                        |e: (u8, &'a [u8])| (e.0, e.1@),
                    ).push((entry.0, entry.1@)));
                    assert(tlv_entries(d, before) =~= seq![(entry.0, entry.1@)] + tlv_entries(
                        d,
                        self.pos(),
                    ));
                    assert(tlv_entries(d, start) =~= entries@.map_values(
                        |e: (u8, &'a [u8])| (e.0, e.1@),
                    ) + tlv_entries(d, self.pos()));
                },
                None => {
                    assert(tlv_entries(d, before) =~= Seq::<(u8, Seq<u8>)>::empty());
                    assert(tlv_entries(d, start) =~= entries@.map_values(
                        |e: (u8, &'a [u8])| (e.0, e.1@),
                    ));
                    return entries;
                },
            }
        }
    }

    /// Whether every byte has been consumed.
    pub fn is_exhausted(&self) -> (r: bool)
        ensures
            r == (self.pos() >= self.data().len()),
    {
        self.pos >= self.data.len()
    }
}

} // verus!
