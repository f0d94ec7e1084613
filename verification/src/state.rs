//! Which surfaces an output drives, and whose clients its frame wakes.

use vstd::prelude::*;

verus! {

/// What the timing of a frame reads of a surface: the client it belongs to,
/// the output it was last shown on if any, and whether a timing barrier of
/// the surface waits to be signaled.
#[derive(Clone, Copy, Debug, PartialEq, Eq, Structural)]
pub struct SurfaceTiming {
    pub client: u64,
    pub primary_output: Option<u64>,
    pub barrier: bool,
}

/// The output `output` drives a surface that was last shown on `primary`:
/// the surface was shown on that output, or on none yet.
pub open spec fn driven_by(primary: Option<u64>, output: u64) -> bool {
    match primary {
        Some(p) => p == output,
        None => true,
    }
}

/// A frame of `output` signals the barrier of the surface.
pub open spec fn signals(surface: SurfaceTiming, output: u64) -> bool {
    surface.barrier && driven_by(surface.primary_output, output)
}

/// A frame of `output` wakes the client `client`: it signals the barrier of
/// one of its surfaces.
pub open spec fn wakes(surfaces: Seq<SurfaceTiming>, output: u64, client: u64) -> bool {
    exists|i: int| 0 <= i < surfaces.len() && signals(#[trigger] surfaces[i], output) && surfaces[i].client == client
}

/// Whether `output` drives a surface that was last shown on `primary`.
pub fn driven_by_output(primary: Option<u64>, output: u64) -> (r: bool)
    ensures
        r == driven_by(primary, output),
{
    match primary {
        Some(p) => p == output,
        None => true,
    }
}

/// Whether `client` is among `clients`.
fn holds(clients: &Vec<u64>, client: u64) -> (r: bool)
    ensures
        r == clients@.contains(client),
{
    let n: usize = clients.len();
    let mut i: usize = 0;
    while i < n
        invariant
            n == clients@.len(),
            0 <= i <= n,
            forall|j: int| 0 <= j < i ==> clients@[j] != client,
        decreases n - i,
    {
        if clients[i] == client {
            return true;
        }
        i = i + 1;
    }
    false
}

/// The clients that a frame of `output` wakes, each once: those with a surface
/// that the output drives and whose barrier waits.
pub fn clients_to_unblock(surfaces: &Vec<SurfaceTiming>, output: u64) -> (r: Vec<u64>)
    ensures
        r@.no_duplicates(),
        forall|client: u64| r@.contains(client) <==> wakes(surfaces@, output, client),
{
    let n: usize = surfaces.len();
    let mut clients: Vec<u64> = Vec::new();
    let mut i: usize = 0;
    while i < n
        invariant
            n == surfaces@.len(),
            0 <= i <= n,
            clients@.no_duplicates(),
            forall|client: u64| clients@.contains(client) <==> wakes(surfaces@.take(i as int), output, client),
        decreases n - i,
    {
        let surface: SurfaceTiming = surfaces[i];
        let ghost before = clients@;
        let woken: bool = surface.barrier && driven_by_output(surface.primary_output, output);
        if woken && !holds(&clients, surface.client) {
            clients.push(surface.client);
        }
        proof {
            let now = surfaces@.take(i + 1);
            let earlier = surfaces@.take(i as int);
            assert forall|client: u64| clients@.contains(client) <==> wakes(now, output, client) by {
                if clients@.contains(client) {
                    if before.contains(client) {
                        let k = choose|k: int|
                            0 <= k < earlier.len() && signals(#[trigger] earlier[k], output) && earlier[k].client
                                == client;
                        assert(now[k] == earlier[k]);
                    } else {
                        let k = choose|k: int| 0 <= k < clients@.len() && clients@[k] == client;
                        assert(k == before.len());
                        assert(now[i as int] == surface);
                    }
                }
                if wakes(now, output, client) {
                    let k = choose|k: int|
                        0 <= k < now.len() && signals(#[trigger] now[k], output) && now[k].client == client;
                    if k < i {
                        assert(earlier[k] == now[k]);
                        assert(before.contains(client));
                        let j = choose|j: int| 0 <= j < before.len() && before[j] == client;
                        assert(clients@[j] == client);
                    } else {
                        assert(now[k] == surface);
                        if before.contains(client) {
                            let j = choose|j: int| 0 <= j < before.len() && before[j] == client;
                            assert(clients@[j] == client);
                        } else {
                            assert(clients@[before.len() as int] == client);
                        }
                    }
                }
            }
        }
        i = i + 1;
    }
    assert(surfaces@.take(n as int) =~= surfaces@);
    clients
}

} // verus!
