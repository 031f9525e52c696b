use vstd::prelude::*;

verus! {

broadcast use vstd::seq_lib::group_seq_properties;

/// The number of array layers a 3D sprite asks for: `0` counts as `1`.
pub open spec fn effective_layers(layers: u32) -> u32 {
    if layers == 0 {
        1
    } else {
        layers
    }
}

/// The number of array layers a sprite's image is split into; a sprite that asks
/// for none gets one.
pub fn sprite3d_layers(layers: u32) -> (r: u32)
    ensures
        r == effective_layers(layers),
        r >= 1,
        layers != 0 ==> r == layers,
        layers == 0 ==> r == 1,
{
    if layers == 0 {
        1
    } else {
        layers
    }
}

/// What the per-frame layer update does to one sprite's image: reinterpret it as an
/// array texture with the given number of layers, or leave it alone.
///
/// An image is touched only once it is loaded, only while it still has exactly one
/// layer, and only when the sprite asks for a different number of layers.
pub open spec fn layer_update_action(layers: u32, loaded: bool, layer_count: u32) -> Option<u32> {
    if loaded && layer_count == 1 && layer_count != effective_layers(layers) {
        Option::Some(effective_layers(layers))
    } else {
        Option::None
    }
}

/// Decides, for one sprite, whether its image is reinterpreted as an array texture
/// this frame. `loaded` is the asset server's load state of the image and
/// `layer_count` the image's current number of array layers.
pub fn sprite3d_layer_update(layers: u32, loaded: bool, layer_count: u32) -> (r: Option<u32>)
    ensures
        r == layer_update_action(layers, loaded, layer_count),
        r is Some <==> (loaded && layer_count == 1 && layers >= 2),
        r is Some ==> r == Option::Some(layers),
{
    let layers = sprite3d_layers(layers);
    if loaded && layer_count == 1 && layer_count != layers {
        Option::Some(layers)
    } else {
        Option::None
    }
}

/// The layer count a sprite asks for is kept as it is, except that `0` becomes `1`.
pub proof fn lemma_effective_layers_keeps_request(layers: u32)
    ensures
        layers != 0 ==> effective_layers(layers) == layers,
        layers == 0 ==> effective_layers(layers) == 1,
{
}

/// The update reinterprets exactly the loaded single-layer images of sprites that ask
/// for at least two layers, and always with the number of layers the sprite asks for.
pub proof fn lemma_layer_update_uses_requested_layers(layers: u32, loaded: bool, layer_count: u32)
    ensures
        layer_update_action(layers, loaded, layer_count) is Some <==> (loaded && layer_count == 1
            && layers >= 2),
        layer_update_action(layers, loaded, layer_count) is Some ==> layer_update_action(
            layers,
            loaded,
            layer_count,
        ) == Option::Some(layers),
{
}

/// Once an image has been reinterpreted, the update leaves it alone: the layer
/// count it now has is never `1`, so a second pass asks for nothing.
pub proof fn lemma_layer_update_is_idempotent(layers: u32, layer_count: u32)
    requires
        layer_update_action(layers, true, layer_count) is Some,
    ensures
        layer_update_action(layers, true, layer_update_action(layers, true, layer_count)->0)
            is None,
{
}

/// An image that is still loading, or already holds more than one layer, is never
/// reinterpreted; a sprite that asks for at most one layer never triggers one.
pub proof fn lemma_layer_update_preconditions(layers: u32, loaded: bool, layer_count: u32)
    ensures
        !loaded ==> layer_update_action(layers, loaded, layer_count) is None,
        layer_count != 1 ==> layer_update_action(layers, loaded, layer_count) is None,
        layers <= 1 ==> layer_update_action(layers, loaded, layer_count) is None,
        layer_update_action(layers, loaded, layer_count) matches Option::Some(n) ==> n >= 2,
{
}

/// The entries of `items` whose flag equals `want`, in their original order.
pub open spec fn select<T>(items: Seq<(T, u32)>, flags: Seq<bool>, want: bool) -> Seq<(T, u32)>
    decreases items.len(),
{
    if items.len() == 0 {
        Seq::empty()
    } else {
        let rest = select(items.drop_last(), flags.take(items.len() - 1), want);
        if flags[items.len() - 1] == want {
            rest.push(items.last())
        } else {
            rest
        }
    }
}

/// Each queued entry paired with its load flag.
pub open spec fn with_flags<T>(items: Seq<(T, u32)>, flags: Seq<bool>) -> Seq<((T, u32), bool)> {
    Seq::new(items.len(), |i: int| (items[i], flags[i]))
}

/// The entries kept by `select` are exactly the entries whose own flag equals `want`,
/// each where it stood: pair every entry with its flag, keep the pairs whose flag is
/// `want`, and drop the flags.
pub proof fn lemma_select_keeps_flagged<T>(items: Seq<(T, u32)>, flags: Seq<bool>, want: bool)
    requires
        flags.len() == items.len(),
    ensures
        select(items, flags, want) == with_flags(items, flags).filter(
            |e: ((T, u32), bool)| e.1 == want,
        ).map_values(|e: ((T, u32), bool)| e.0),
    decreases items.len(),
{
    let p = |e: ((T, u32), bool)| e.1 == want;
    let f = |e: ((T, u32), bool)| e.0;
    if items.len() == 0 {
        assert(with_flags(items, flags) =~= Seq::<((T, u32), bool)>::empty());
        reveal(Seq::filter);
        assert(with_flags(items, flags).filter(p).map_values(f) =~= Seq::<(T, u32)>::empty());
    } else {
        let k = items.len() - 1;
        lemma_select_keeps_flagged(items.drop_last(), flags.take(k), want);
        let z = with_flags(items, flags);
        let zr = with_flags(items.drop_last(), flags.take(k));
        assert(zr =~= z.drop_last());
        assert(z =~= zr.push(z[k]));
        zr.lemma_filter_push(z[k], p);
        let fr = zr.filter(p);
        if p(z[k]) {
            assert(fr.push(z[k]).map_values(f) =~= fr.map_values(f).push(items.last()));
        }
    }
}

/// Images that wait for their asset to load before they are reinterpreted as array
/// textures, each with the number of layers asked for.
pub struct ArrayTextureQueue<T> {
    queue: Vec<(T, u32)>,
}

impl<T> View for ArrayTextureQueue<T> {
    type V = Seq<(T, u32)>;

    closed spec fn view(&self) -> Seq<(T, u32)> {
        self.queue@
    }
}

impl<T: Copy> ArrayTextureQueue<T> {
    /// An empty queue.
    pub fn new() -> (r: Self)
        ensures
            r@ == Seq::<(T, u32)>::empty(),
    {
        ArrayTextureQueue { queue: Vec::new() }
    }

    /// The number of images waiting.
    pub fn len(&self) -> (r: usize)
        ensures
            r == self@.len(),
    {
        self.queue.len()
    }

    /// The waiting images, oldest first.
    pub fn entries(&self) -> (r: &Vec<(T, u32)>)
        ensures
            r@ == self@,
    {
        &self.queue
    }

    /// Handles a billboard that was just added to an entity.
    ///
    /// `layers` is the billboard's layer count, `image` the image of the entity's
    /// sprite (if it has one) and `loaded` whether that image has finished loading.
    /// A loaded image is to be reinterpreted right away with the returned number of
    /// layers; one that is still loading joins the end of the queue.
    pub fn on_billboard_added(&mut self, layers: Option<u32>, image: Option<T>, loaded: bool) -> (r:
        Option<u32>)
        ensures
            match (layers, image) {
                (Option::Some(n), Option::Some(id)) => if loaded {
                    r == Option::Some(n) && final(self)@ == old(self)@
                } else {
                    r is None && final(self)@ == old(self)@.push((id, n))
                },
                _ => r is None && final(self)@ == old(self)@,
            },
    {
        match (layers, image) {
            (Option::Some(n), Option::Some(id)) => {
                if loaded {
                    Option::Some(n)
                } else {
                    self.queue.push((id, n));
                    Option::None
                }
            },
            _ => Option::None,
        }
    }

    /// Takes every image whose asset has loaded out of the queue and returns them,
    /// oldest first, to be reinterpreted; the others stay queued in their order.
    /// `loaded[i]` is the load state of the `i`-th queued image.
    pub fn process(&mut self, loaded: &Vec<bool>) -> (ready: Vec<(T, u32)>)
        requires
            loaded@.len() == old(self)@.len(),
        ensures
            ready@ == select(old(self)@, loaded@, true),
            final(self)@ == select(old(self)@, loaded@, false),
            ready@ == with_flags(old(self)@, loaded@).filter(|e: ((T, u32), bool)| e.1 == true).map_values(
                |e: ((T, u32), bool)| e.0,
            ),
            final(self)@ == with_flags(old(self)@, loaded@).filter(
                |e: ((T, u32), bool)| e.1 == false,
            ).map_values(|e: ((T, u32), bool)| e.0),
    {
        proof {
            lemma_select_keeps_flagged(old(self)@, loaded@, true);
            lemma_select_keeps_flagged(old(self)@, loaded@, false);
        }
        let mut ready: Vec<(T, u32)> = Vec::new();
        let mut remaining: Vec<(T, u32)> = Vec::new();
        let n = self.queue.len();
        let ghost items = self.queue@;
        let mut i: usize = 0;
        while i < n
            invariant
                n == items.len(),
                items == self.queue@,
                loaded@.len() == n,
                i <= n,
                ready@ == select(items.take(i as int), loaded@.take(i as int), true),
                remaining@ == select(items.take(i as int), loaded@.take(i as int), false),
            decreases n - i,
        {
            let entry = self.queue[i];
            proof {
                let t = items.take(i + 1);
                let f = loaded@.take(i + 1);
                assert(t.drop_last() =~= items.take(i as int));
                assert(f.take(i as int) =~= loaded@.take(i as int));
                assert(t.last() == items[i as int]);
                assert(f[i as int] == loaded@[i as int]);
            }
            if loaded[i] {
                ready.push(entry);
            } else {
                remaining.push(entry);
            }
            i = i + 1;
        }
        proof {
            assert(items.take(n as int) =~= items);
            assert(loaded@.take(n as int) =~= loaded@);
        }
        self.queue = remaining;
        ready
    }
}

/// Processing the queue loses and duplicates nothing: the images handed out and the
/// images that stay queued together are exactly the queued images.
pub proof fn lemma_select_partitions<T>(items: Seq<(T, u32)>, flags: Seq<bool>)
    requires
        flags.len() == items.len(),
    ensures
        select(items, flags, true).len() + select(items, flags, false).len() == items.len(),
        select(items, flags, true).to_multiset().add(select(items, flags, false).to_multiset())
            == items.to_multiset(),
    decreases items.len(),
{
    if items.len() > 0 {
        let k = items.len() - 1;
        lemma_select_partitions(items.drop_last(), flags.take(k));
        assert(items.drop_last().push(items.last()) =~= items);
        items.drop_last().to_multiset_ensures();
        items.to_multiset_ensures();
        select(items.drop_last(), flags.take(k), true).to_multiset_ensures();
        select(items.drop_last(), flags.take(k), false).to_multiset_ensures();
        assert(select(items, flags, true).to_multiset().add(select(items, flags, false).to_multiset())
            =~= items.to_multiset());
    } else {
        assert(items.to_multiset() =~= vstd::multiset::Multiset::empty());
        assert(select(items, flags, true).to_multiset() =~= vstd::multiset::Multiset::empty());
    }
}

/// Once every queued image has loaded, processing empties the queue and hands out
/// every image, in the order it was queued.
pub proof fn lemma_all_loaded_drains<T>(items: Seq<(T, u32)>, flags: Seq<bool>)
    requires
        flags.len() == items.len(),
        forall|i: int| 0 <= i < flags.len() ==> flags[i],
    ensures
        select(items, flags, true) == items,
        select(items, flags, false) == Seq::<(T, u32)>::empty(),
    decreases items.len(),
{
    if items.len() > 0 {
        let k = items.len() - 1;
        lemma_all_loaded_drains(items.drop_last(), flags.take(k));
        assert(items.drop_last().push(items.last()) =~= items);
    }
}

/// While no queued image has loaded, processing changes nothing.
pub proof fn lemma_none_loaded_keeps<T>(items: Seq<(T, u32)>, flags: Seq<bool>)
    requires
        flags.len() == items.len(),
        forall|i: int| 0 <= i < flags.len() ==> !flags[i],
    ensures
        select(items, flags, true) == Seq::<(T, u32)>::empty(),
        select(items, flags, false) == items,
    decreases items.len(),
{
    if items.len() > 0 {
        let k = items.len() - 1;
        lemma_none_loaded_keeps(items.drop_last(), flags.take(k));
        assert(items.drop_last().push(items.last()) =~= items);
    }
}

} // verus!
