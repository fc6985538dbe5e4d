//! Motion planning for a chess-playing H-bot gantry: board geometry, the
//! two-motor kinematics, the homing state machine, the move compiler that turns
//! a chess move into carriage trajectories, and the session protocol.

mod gantry;
mod geometry;
mod kinematics;
mod pieces;
mod planner;
mod robochess;
mod session;
mod stepper;

pub use geometry::{
    corridor_x, corridor_y, get_square_coordinates, in_envelope, square_x, square_y,
    within_envelope, Square, MAX_X, MAX_Y, MIN_X, MIN_Y, SIZE_OFF_SQUARE, X_OFFSET, Y_OFFSET,
    Y_PLACEMENT_OFFSET,
};

pub use kinematics::{
    abs, base_period, lemma_simultaneous_completion, max, motor1_steps, motor2_steps,
    motor_period, move_duration, plan_displacement, plan_spec, MotorCommand, MotorPlan, Speed,
    FAST_DELAY_NS, MAX_MOTOR_STEPS, SLOW_DELAY_NS,
};

pub use gantry::{
    after_command, after_commands, approach_actions, backoff_actions, homing_next, homing_run,
    homing_script, idle, lemma_homing_idempotent, lemma_pose_closure, HBot, HomingAction,
    HomingEvent, HomingPhase, BACKOFF_STEPS, RELEASE_STEPS,
};

pub use pieces::{opposite, CastleSide, ChessMove, Color, Piece, PieceType};

pub use planner::{
    abs_int, all_in_envelope, back_corridor_y, back_rank, bin_additions, bin_corridor_y, bin_of,
    bin_slot_y, bin_x, capture_plan, capture_square, castle_files, castle_plan, edge_x, far_y,
    find_kind, find_kind_from, is_knight_jump, knight_legs, knight_plan, lemma_bin_growth,
    lemma_knight_corridors, move_plan, mv, opponent_bin_after, own_bin_after, promotion_plan,
    simple_plan, sx, sy, Command, BIN_SLOTS,
};

pub use robochess::{own_slot_taken, RoboChess};

pub use session::{
    fen_argument, is_calibrate, is_fen_command, parse_command, replies_after_fen,
    replies_after_move, set_message, starts_with, state_tag, Reply, SessionCommand, StateTag,
};

pub use stepper::{PulseSchedule, CONTINUOUS_STEPS};
