use apple_mps::filters::{check_histogram_extent, check_histogram_offset, histogram_entries_valid};
use apple_mps::mps_core::predicate_fits;
use apple_mps::{Error, StateTextureInfo};
use apple_mps::mps_core::{encode_outcome, next_hold_action, HoldAction};
use apple_mps::CommandBufferFault;
use apple_mps::state::{batch_read_count_result, check_read_count, check_synchronizable, first_occurrences};
use apple_mps::neural::check_recurrent_output_is_temporary;

#[test]
fn predicates_must_fit_in_their_buffer() {
    assert!(!predicate_fits(8, 8));
    assert!(!predicate_fits(64, 8));
    assert!(!predicate_fits(2, 8));
    assert!(!predicate_fits(usize::MAX, 8));
    assert!(predicate_fits(4, 8));
}

#[test]
fn histograms_need_room_for_every_bin() {
    assert!(!histogram_entries_valid(3));
    assert!(!histogram_entries_valid(0));
    assert!(histogram_entries_valid(256));
    let required = 3 * 256 * 4;
    let fits = |offset: usize, length: usize| {
        check_histogram_offset(offset).and_then(|()| check_histogram_extent(offset, required, length))
    };
    assert_eq!(
        fits(0, 16),
        Err(Error::BufferTooSmall {
            required,
            length: 16,
        })
    );
    assert_eq!(
        fits(4, required + 32),
        Err(Error::Misaligned {
            field: "histogram_offset",
            value: 4,
            alignment: 32,
        })
    );
    assert_eq!(
        fits(64, required + 32),
        Err(Error::BufferTooSmall {
            required: required + 64,
            length: required + 32,
        })
    );
    fits(32, required + 32).expect("fits at offset 32");
}

#[test]
fn state_texture_info_defaults_to_empty() {
    let info = StateTextureInfo::default();
    assert_eq!(info.width, 0);
    assert_eq!(info.usage, 0);
}

#[test]
fn each_command_buffer_is_held_once_in_first_seen_order() {
    assert_eq!(first_occurrences(&[7, 3, 7, 9, 3, 7]), vec![0, 1, 3]);
    assert_eq!(first_occurrences(&[]), Vec::<usize>::new());
    assert_eq!(first_occurrences(&[5, 5, 5]), vec![0]);
}

#[test]
fn read_counts_refuse_what_mps_aborts_on() {
    // A persistent state has no read count to set.
    assert!(matches!(check_read_count(false, 0, 2), Err(Error::InvalidArgument(_))));
    // MPS answers a batch change that would take a count below zero with -1.
    assert!(matches!(batch_read_count_result(-1), Err(Error::InvalidArgument(_))));
    // Two temporary handles on one state and a persistent one: one unique state.
    assert_eq!(batch_read_count_result(2), Ok(2));
    // Temporary states are GPU-private, alone or in a batch.
    assert!(matches!(check_synchronizable(&[true]), Err(Error::InvalidArgument(_))));
    assert!(matches!(check_synchronizable(&[false, true]), Err(Error::InvalidArgument(_))));
    // A temporary state may return its storage, but not raise a count that reached zero.
    assert_eq!(check_read_count(true, 3, 0), Ok(()));
    assert!(matches!(check_read_count(true, 0, 2), Err(Error::InvalidArgument(_))));
    assert_eq!(check_read_count(true, 0, 0), Ok(()));
    assert_eq!(check_synchronizable(&[false]), Ok(()));
    assert_eq!(check_read_count(true, 1, usize::MAX), Err(Error::Overflow));
}

#[test]
fn temporary_recurrent_outputs_are_refused() {
    assert!(matches!(check_recurrent_output_is_temporary(true), Err(Error::Unsupported(_))));
    assert_eq!(check_recurrent_output_is_temporary(false), Ok(()));
}

#[test]
fn command_buffer_refusals_stop_the_call() {
    assert_eq!(encode_outcome::<usize>(Ok(7)), Ok(7));
    assert_eq!(
        encode_outcome::<()>(Err(CommandBufferFault::ActiveEncoder)),
        Err(Error::CommandBuffer(CommandBufferFault::ActiveEncoder))
    );
    assert_eq!(
        next_hold_action(0, 1, Some(CommandBufferFault::ActiveEncoder)),
        HoldAction::Refuse(Error::CommandBuffer(CommandBufferFault::ActiveEncoder))
    );
    assert_eq!(
        next_hold_action(1, 3, Some(CommandBufferFault::StateLockPoisoned)),
        HoldAction::Refuse(Error::CommandBuffer(CommandBufferFault::StateLockPoisoned))
    );
    let committed = CommandBufferFault::InvalidState { operation: "encode_foreign", state: "committed" };
    assert_eq!(next_hold_action(0, 2, Some(committed.clone())), HoldAction::HoldNext);
    assert_eq!(next_hold_action(1, 2, Some(committed)), HoldAction::CallMps);
    assert_eq!(next_hold_action(0, 2, None), HoldAction::HoldNext);
    assert_eq!(next_hold_action(1, 2, None), HoldAction::CallMps);
}
