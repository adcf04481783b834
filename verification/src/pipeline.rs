use vstd::prelude::*;

verus! {

/// Size in bytes of the push-constant block: one column-major 4x4 `f32` model matrix.
pub const PUSH_CONSTANT_SIZE: u32 = 64;

/// A graphics pipeline can only be built once a pipeline layout (a non-null
/// handle) has been set.
pub fn check_pipeline_layout(layout: u64) -> (res: Result<(), String>)
    ensures
        layout != 0 ==> res == Ok::<(), String>(()),
        layout == 0 ==> (res matches Err(s) && s@ == "Pipeline Layout が設定されていません"@),
{
    if layout == 0 {
        return Err("Pipeline Layout が設定されていません".to_owned());
    }
    Ok(())
}

} // verus!
