use vstd::prelude::*;

use crate::command::{RenderCommand, RenderLayer, RenderType};

verus! {

/// A text label drawn at its entity's transform.
pub struct TextLabel {
    pub text: String,
}

/// A text label as extracted for one frame, with its resolved transform.
pub struct ExtractedTextLabel<T> {
    pub text: String,
    pub transform: T,
}

/// All text labels extracted in the current frame.
pub struct ExtractedTextLabels<T> {
    pub text_labels: Vec<ExtractedTextLabel<T>>,
}

/// The draw command for an extracted label: text on the foreground layer.
pub open spec fn label_command<T>(label: ExtractedTextLabel<T>) -> RenderCommand<T> {
    RenderCommand {
        render_type: RenderType::Text(label.text, label.transform),
        render_layer: RenderLayer::Foreground,
    }
}

/// Copies each label and its transform out of the application state, in
/// query order.
pub fn extract_text_labels<T: Copy>(query: &Vec<(TextLabel, T)>) -> (r: ExtractedTextLabels<T>)
    ensures
        r.text_labels@.len() == query@.len(),
        forall|i: int|
            0 <= i < query@.len() ==> #[trigger] r.text_labels@[i] == (ExtractedTextLabel {
                text: query@[i].0.text,
                transform: query@[i].1,
            }),
{
    let mut text_labels: Vec<ExtractedTextLabel<T>> = Vec::new();
    let mut i: usize = 0;
    while i < query.len()
        invariant
            i <= query@.len(),
            text_labels@.len() == i,
            forall|j: int|
                0 <= j < i ==> #[trigger] text_labels@[j] == (ExtractedTextLabel {
                    text: query@[j].0.text,
                    transform: query@[j].1,
                }),
        decreases query@.len() - i,
    {
        let text = query[i].0.text.clone();
        let transform = query[i].1;
        text_labels.push(ExtractedTextLabel { text, transform });
        i = i + 1;
    }
    ExtractedTextLabels { text_labels }
}

/// Emits one foreground text command per extracted label, in extraction order.
pub fn prepare_text_labels<T: Copy>(
    extracted_text_labels: &ExtractedTextLabels<T>,
    render_commands: &mut Vec<RenderCommand<T>>,
)
    ensures
        final(render_commands)@ == old(render_commands)@ + extracted_text_labels.text_labels@.map_values(
            |l: ExtractedTextLabel<T>| label_command(l),
        ),
{
    let ghost labels = extracted_text_labels.text_labels@;
    let ghost start = render_commands@;
    let mut i: usize = 0;
    while i < extracted_text_labels.text_labels.len()
        invariant
            labels == extracted_text_labels.text_labels@,
            i <= labels.len(),
            render_commands@ == start + labels.take(i as int).map_values(
                |l: ExtractedTextLabel<T>| label_command(l),
            ),
        decreases labels.len() - i,
    {
        let extracted = &extracted_text_labels.text_labels[i];
        let render_type = RenderType::Text(extracted.text.clone(), extracted.transform);
        render_commands.push(RenderCommand::new(render_type, RenderLayer::Foreground));
        assert(labels.take(i + 1) == labels.take(i as int).push(labels[i as int]));
        assert(labels.take(i + 1).map_values(|l: ExtractedTextLabel<T>| label_command(l)) =~= labels.take(
            i as int,
        ).map_values(|l: ExtractedTextLabel<T>| label_command(l)).push(label_command(labels[i as int])));
        i = i + 1;
    }
    assert(labels.take(labels.len() as int) == labels);
}

} // verus!
