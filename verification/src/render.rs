use crate::assets::AssetServer;
use crate::handle::Handle;
use crate::model::DrawCall;
use vstd::prelude::*;

verus! {

/// The draws of one batch in a frame.
#[derive(Debug)]
pub struct BatchDraw {
    pub handle: Handle,
    pub calls: Vec<DrawCall>,
}

/// Lists what a frame draws: every live batch once, by increasing slot
/// index, each with the draws that render its live instances.
pub fn render(server: &AssetServer) -> (frame: Vec<BatchDraw>)
    requires
        server.wf(),
    ensures
        forall|i: int, j: int|
            0 <= i < j < frame@.len() ==> frame@[i].handle.index < frame@[j].handle.index,
        forall|i: int|
            0 <= i < frame@.len() ==> server.arena().live((#[trigger] frame@[i]).handle)
                && frame@[i].calls@ == server.arena().prefab(frame@[i].handle).draws(
                server.materials(),
                server.sprite(),
            ),
        forall|index: usize| #[trigger]
            server.arena().slots.contains_key(index) ==> exists|i: int|
                0 <= i < frame@.len() && (#[trigger] frame@[i]).handle.index == index,
{
    let handles = server.handles();
    let mut frame: Vec<BatchDraw> = Vec::new();
    let mut i: usize = 0;
    while i < handles.len()
        invariant
            server.wf(),
            i <= handles@.len(),
            frame@.len() == i,
            forall|k: int| 0 <= k < handles@.len() ==> server.arena().live(#[trigger] handles@[k]),
            forall|k: int|
                0 <= k < i ==> (#[trigger] frame@[k]).handle == handles@[k] && frame@[k].calls@
                    == server.arena().prefab(handles@[k]).draws(
                    server.materials(),
                    server.sprite(),
                ),
        decreases handles@.len() - i,
    {
        let handle = handles[i];
        assert(server.arena().live(handles@[i as int]));
        match server.get(handle) {
            Some(prefab) => {
                assert(server.arena().slots.contains_key(handle.index));
                let calls = prefab.draw(server.material_assets(), server.sprite_mesh());
                frame.push(BatchDraw { handle, calls });
            },
            None => {},
        }
        i += 1;
    }
    proof {
        assert forall|index: usize| #[trigger]
            server.arena().slots.contains_key(index) implies exists|i: int|
            0 <= i < frame@.len() && (#[trigger] frame@[i]).handle.index == index by {
            let k = choose|k: int| 0 <= k < handles@.len() && (#[trigger] handles@[k]).index == index;
            assert(frame@[k].handle.index == index);
        }
    }
    frame
}

} // verus!
