//! The hook table: a per-game mapping from named instrumentation points to
//! memory addresses.
//!
//! Pure data, fixed per ROM revision, looked up once at session start.  An
//! address of zero means the hook is unsupported on that revision: optional
//! hooks may be absent and the engine runs without them, but a session must
//! not be constructed when a required hook is missing.  The engine itself
//! never branches on a game's concrete address values, only on the named
//! events resolved through this table.

use vstd::prelude::*;

verus! {

/// Addresses in working RAM the engine reads or writes around hooks.
#[derive(Clone, Copy, Debug, PartialEq, Eq)]
pub struct EWRAMOffsets {
    /// Outgoing packet.
    pub tx_packet: u32,
    /// Incoming packet ring.
    pub rx_packet_arr: u32,
    /// The battle state struct.
    pub battle_state: u32,
    /// Start screen jump table control.
    pub start_screen_control: u32,
    /// Title menu jump table control.
    pub title_menu_control: u32,
    /// Subsystem control.
    pub subsystem_control: u32,
    /// START menu submenu jump table control.
    pub submenu_control: u32,
    /// Local RNG state; never synchronized.
    pub rng1_state: u32,
    /// Shared RNG state; must be synchronized.
    pub rng2_state: u32,
}

/// Addresses of instrumentation points in the ROM.
#[derive(Clone, Copy, Debug, PartialEq, Eq)]
pub struct ROMOffsets {
    /// Entry point of the start screen; from here the start screen control
    /// word can be written to skip to the title screen.
    pub start_screen_jump_table_entry: u32,
    /// Directly after save RAM is copied to working RAM and unmasked.
    pub start_screen_sram_unmask_ret: u32,
    /// Directly after game initialization is complete.
    pub game_load_ret: u32,
    /// Directly after the pad state is read and processed; input is
    /// injected here, on every frame.
    pub main_read_joyflags: u32,
    /// Return of the routine that reports input-copy state (ready, or
    /// remote disconnected).
    pub get_copy_data_input_state_ret: u32,
    /// Entry of the routine that copies received input into game state;
    /// received packets are injected here.
    pub copy_input_data_entry: u32,
    /// Exit of that routine; packets to transmit are read here.
    pub copy_input_data_ret: u32,
    /// After the game determines the round winner.
    pub round_run_unpaused_step_cmp_retval: u32,
    /// After the battle start routine completes; round tracking state is
    /// initialized here.
    pub round_start_ret: u32,
    /// When the round is ending and no further input is processed; round
    /// state is cleaned up and the replay committed here.
    pub round_ending_ret: u32,
    /// After the battle end routine completes.
    pub round_end_entry: u32,
    pub round_phase_jump_table_ret: u32,
    /// Where the game decides whether the player is player 2.
    pub battle_is_p2_tst: u32,
    /// A second point deciding whether the player is player 2.
    pub link_is_p2_ret: u32,
    /// Entry point of the link-play menu.
    pub comm_menu_init_ret: u32,
    /// Entry point of link battle inside that menu.
    pub comm_menu_init_battle_entry: u32,
    /// Link-cable serial handler in the menu; never taken over a network.
    pub handle_sio_entry: u32,
    /// In-battle link-cable serial handler; skipped.
    pub in_battle_call_handle_link_cable_input: u32,
    /// Entry of the routine called when a match ends.
    pub comm_menu_end_battle_entry: u32,
    /// Where the opponent's display name is stored; purely cosmetic.
    pub opponent_name: u32,
}

/// One game revision's full hook table.
#[derive(Clone, Copy, Debug, PartialEq, Eq)]
pub struct Offsets {
    pub rom: ROMOffsets,
    pub ewram: EWRAMOffsets,
}

/// The named instrumentation points, one per ROM offset.
#[derive(Clone, Copy, Debug, PartialEq, Eq)]
pub enum HookEvent {
    StartScreenJumpTableEntry,
    StartScreenSramUnmaskRet,
    GameLoadRet,
    MainReadJoyflags,
    GetCopyDataInputStateRet,
    CopyInputDataEntry,
    CopyInputDataRet,
    RoundRunUnpausedStepCmpRetval,
    RoundStartRet,
    RoundEndingRet,
    RoundEndEntry,
    RoundPhaseJumpTableRet,
    BattleIsP2Tst,
    LinkIsP2Ret,
    CommMenuInitRet,
    CommMenuInitBattleEntry,
    HandleSioEntry,
    InBattleCallHandleLinkCableInput,
    CommMenuEndBattleEntry,
    OpponentName,
}

/// The named working-RAM regions.
#[derive(Clone, Copy, Debug, PartialEq, Eq)]
pub enum MemoryRegion {
    TxPacket,
    RxPacketArr,
    BattleState,
    StartScreenControl,
    TitleMenuControl,
    SubsystemControl,
    SubmenuControl,
    Rng1State,
    Rng2State,
}

/// The raw table entry for an event, zero meaning "not installed".
pub open spec fn spec_raw_addr(o: Offsets, e: HookEvent) -> u32 {
    match e {
        HookEvent::StartScreenJumpTableEntry => o.rom.start_screen_jump_table_entry,
        HookEvent::StartScreenSramUnmaskRet => o.rom.start_screen_sram_unmask_ret,
        HookEvent::GameLoadRet => o.rom.game_load_ret,
        HookEvent::MainReadJoyflags => o.rom.main_read_joyflags,
        HookEvent::GetCopyDataInputStateRet => o.rom.get_copy_data_input_state_ret,
        HookEvent::CopyInputDataEntry => o.rom.copy_input_data_entry,
        HookEvent::CopyInputDataRet => o.rom.copy_input_data_ret,
        HookEvent::RoundRunUnpausedStepCmpRetval => o.rom.round_run_unpaused_step_cmp_retval,
        HookEvent::RoundStartRet => o.rom.round_start_ret,
        HookEvent::RoundEndingRet => o.rom.round_ending_ret,
        HookEvent::RoundEndEntry => o.rom.round_end_entry,
        HookEvent::RoundPhaseJumpTableRet => o.rom.round_phase_jump_table_ret,
        HookEvent::BattleIsP2Tst => o.rom.battle_is_p2_tst,
        HookEvent::LinkIsP2Ret => o.rom.link_is_p2_ret,
        HookEvent::CommMenuInitRet => o.rom.comm_menu_init_ret,
        HookEvent::CommMenuInitBattleEntry => o.rom.comm_menu_init_battle_entry,
        HookEvent::HandleSioEntry => o.rom.handle_sio_entry,
        HookEvent::InBattleCallHandleLinkCableInput => o.rom.in_battle_call_handle_link_cable_input,
        HookEvent::CommMenuEndBattleEntry => o.rom.comm_menu_end_battle_entry,
        HookEvent::OpponentName => o.rom.opponent_name,
    }
}

/// The raw table entry for a memory region, zero meaning "not present".
pub open spec fn spec_raw_region(o: Offsets, r: MemoryRegion) -> u32 {
    match r {
        MemoryRegion::TxPacket => o.ewram.tx_packet,
        MemoryRegion::RxPacketArr => o.ewram.rx_packet_arr,
        MemoryRegion::BattleState => o.ewram.battle_state,
        MemoryRegion::StartScreenControl => o.ewram.start_screen_control,
        MemoryRegion::TitleMenuControl => o.ewram.title_menu_control,
        MemoryRegion::SubsystemControl => o.ewram.subsystem_control,
        MemoryRegion::SubmenuControl => o.ewram.submenu_control,
        MemoryRegion::Rng1State => o.ewram.rng1_state,
        MemoryRegion::Rng2State => o.ewram.rng2_state,
    }
}

/// The hooks a session cannot run without: the per-tick input exchange and
/// the round lifecycle.  Menu shortcuts and cosmetic hooks are optional.
pub open spec fn spec_required(e: HookEvent) -> bool {
    match e {
        HookEvent::MainReadJoyflags => true,
        HookEvent::GetCopyDataInputStateRet => true,
        HookEvent::CopyInputDataEntry => true,
        HookEvent::CopyInputDataRet => true,
        HookEvent::RoundRunUnpausedStepCmpRetval => true,
        HookEvent::RoundStartRet => true,
        HookEvent::RoundEndingRet => true,
        HookEvent::RoundEndEntry => true,
        _ => false,
    }
}

/// A table supports a session when every required hook is installed.
pub open spec fn spec_supports_session(o: Offsets) -> bool {
    forall|e: HookEvent| spec_required(e) ==> spec_raw_addr(o, e) != 0
}

impl Offsets {
    /// Resolve a named event to its address; `None` when the hook is not
    /// installed on this revision.
    pub fn lookup(&self, e: HookEvent) -> (r: Option<u32>)
        ensures
            r == (if spec_raw_addr(*self, e) != 0 {
                Some(spec_raw_addr(*self, e))
            } else {
                None::<u32>
            }),
    {
        let raw = self.raw_addr(e);
        if raw != 0 {
            Some(raw)
        } else {
            None
        }
    }

    /// Resolve a named working-RAM region to its address; `None` when the
    /// revision does not expose it.
    pub fn lookup_region(&self, r: MemoryRegion) -> (res: Option<u32>)
        ensures
            res == (if spec_raw_region(*self, r) != 0 {
                Some(spec_raw_region(*self, r))
            } else {
                None::<u32>
            }),
    {
        let raw = match r {
            MemoryRegion::TxPacket => self.ewram.tx_packet,
            MemoryRegion::RxPacketArr => self.ewram.rx_packet_arr,
            MemoryRegion::BattleState => self.ewram.battle_state,
            MemoryRegion::StartScreenControl => self.ewram.start_screen_control,
            MemoryRegion::TitleMenuControl => self.ewram.title_menu_control,
            MemoryRegion::SubsystemControl => self.ewram.subsystem_control,
            MemoryRegion::SubmenuControl => self.ewram.submenu_control,
            MemoryRegion::Rng1State => self.ewram.rng1_state,
            MemoryRegion::Rng2State => self.ewram.rng2_state,
        };
        if raw != 0 {
            Some(raw)
        } else {
            None
        }
    }

    fn raw_addr(&self, e: HookEvent) -> (r: u32)
        ensures
            r == spec_raw_addr(*self, e),
    {
        match e {
            HookEvent::StartScreenJumpTableEntry => self.rom.start_screen_jump_table_entry,
            HookEvent::StartScreenSramUnmaskRet => self.rom.start_screen_sram_unmask_ret,
            HookEvent::GameLoadRet => self.rom.game_load_ret,
            HookEvent::MainReadJoyflags => self.rom.main_read_joyflags,
            HookEvent::GetCopyDataInputStateRet => self.rom.get_copy_data_input_state_ret,
            HookEvent::CopyInputDataEntry => self.rom.copy_input_data_entry,
            HookEvent::CopyInputDataRet => self.rom.copy_input_data_ret,
            HookEvent::RoundRunUnpausedStepCmpRetval => self.rom.round_run_unpaused_step_cmp_retval,
            HookEvent::RoundStartRet => self.rom.round_start_ret,
            HookEvent::RoundEndingRet => self.rom.round_ending_ret,
            HookEvent::RoundEndEntry => self.rom.round_end_entry,
            HookEvent::RoundPhaseJumpTableRet => self.rom.round_phase_jump_table_ret,
            HookEvent::BattleIsP2Tst => self.rom.battle_is_p2_tst,
            HookEvent::LinkIsP2Ret => self.rom.link_is_p2_ret,
            HookEvent::CommMenuInitRet => self.rom.comm_menu_init_ret,
            HookEvent::CommMenuInitBattleEntry => self.rom.comm_menu_init_battle_entry,
            HookEvent::HandleSioEntry => self.rom.handle_sio_entry,
            HookEvent::InBattleCallHandleLinkCableInput => self
                .rom
                .in_battle_call_handle_link_cable_input,
            HookEvent::CommMenuEndBattleEntry => self.rom.comm_menu_end_battle_entry,
            HookEvent::OpponentName => self.rom.opponent_name,
        }
    }

    /// Session construction gate: `Ok` exactly when every required hook is
    /// installed; the first missing required hook otherwise.
    pub fn validate_required(&self) -> (r: Result<(), HookEvent>)
        ensures
            r is Ok <==> spec_supports_session(*self),
            r matches Err(e) ==> spec_required(e) && spec_raw_addr(*self, e) == 0,
    {
        let required: [HookEvent; 8] = [
            HookEvent::MainReadJoyflags,
            HookEvent::GetCopyDataInputStateRet,
            HookEvent::CopyInputDataEntry,
            HookEvent::CopyInputDataRet,
            HookEvent::RoundRunUnpausedStepCmpRetval,
            HookEvent::RoundStartRet,
            HookEvent::RoundEndingRet,
            HookEvent::RoundEndEntry,
        ];
        let mut i: usize = 0;
        while i < 8
            invariant
                0 <= i <= 8,
                required@ =~= seq![
                    HookEvent::MainReadJoyflags,
                    HookEvent::GetCopyDataInputStateRet,
                    HookEvent::CopyInputDataEntry,
                    HookEvent::CopyInputDataRet,
                    HookEvent::RoundRunUnpausedStepCmpRetval,
                    HookEvent::RoundStartRet,
                    HookEvent::RoundEndingRet,
                    HookEvent::RoundEndEntry,
                ],
                forall|j: int| 0 <= j < i ==> spec_raw_addr(*self, required@[j]) != 0,
            decreases 8 - i,
        {
            let e = required[i];
            if self.raw_addr(e) == 0 {
                proof {
                    assert(spec_required(e));
                }
                return Err(e);
            }
            i = i + 1;
        }
        proof {
            assert forall|e: HookEvent| spec_required(e) implies spec_raw_addr(*self, e) != 0 by {
                assert(spec_raw_addr(*self, required@[0]) != 0);
                assert(spec_raw_addr(*self, required@[1]) != 0);
                assert(spec_raw_addr(*self, required@[2]) != 0);
                assert(spec_raw_addr(*self, required@[3]) != 0);
                assert(spec_raw_addr(*self, required@[4]) != 0);
                assert(spec_raw_addr(*self, required@[5]) != 0);
                assert(spec_raw_addr(*self, required@[6]) != 0);
                assert(spec_raw_addr(*self, required@[7]) != 0);
            }
        }
        Ok(())
    }
}

/// The working-RAM layout shared by the US builds.
pub open spec fn spec_ewram_offsets_us() -> EWRAMOffsets {
    EWRAMOffsets {
        tx_packet: 0x02037bc0,
        rx_packet_arr: 0x0203ac10,
        battle_state: 0x02035810,
        start_screen_control: 0x0200b220,
        title_menu_control: 0x0200b220,
        subsystem_control: 0x0200a7e0,
        submenu_control: 0x0200a450,
        rng1_state: 0x020015d4,
        rng2_state: 0x02001790,
    }
}

/// The working-RAM layout shared by the US builds.
pub fn ewram_offsets_us() -> (r: EWRAMOffsets)
    ensures
        r == (EWRAMOffsets {
            tx_packet: 0x02037bc0,
            rx_packet_arr: 0x0203ac10,
            battle_state: 0x02035810,
            start_screen_control: 0x0200b220,
            title_menu_control: 0x0200b220,
            subsystem_control: 0x0200a7e0,
            submenu_control: 0x0200a450,
            rng1_state: 0x020015d4,
            rng2_state: 0x02001790,
        }),
{
    EWRAMOffsets {
        tx_packet: 0x02037bc0,
        rx_packet_arr: 0x0203ac10,
        battle_state: 0x02035810,
        start_screen_control: 0x0200b220,
        title_menu_control: 0x0200b220,
        subsystem_control: 0x0200a7e0,
        submenu_control: 0x0200a450,
        rng1_state: 0x020015d4,
        rng2_state: 0x02001790,
    }
}

/// The JP build's layout: the start screen control word is not known there
/// yet, which the zero records as "not present".
pub fn ewram_offsets_jp() -> (r: EWRAMOffsets)
    ensures
        r == (EWRAMOffsets { start_screen_control: 0, ..spec_ewram_offsets_us() }),
{
    let mut o = ewram_offsets_us();
    o.start_screen_control = 0;
    o
}

/// The hook table of the fourth-generation US build.  The link-play menu
/// entry points are not known for it yet; they are optional, so the table
/// still supports a session.
pub fn megamanbn4bm() -> (r: Offsets)
    ensures
        r.ewram == spec_ewram_offsets_us(),
        r.rom == (ROMOffsets {
            start_screen_jump_table_entry: 0x0802d786,
            start_screen_sram_unmask_ret: 0x080253ca,
            game_load_ret: 0x08004996,
            main_read_joyflags: 0x080003c6,
            get_copy_data_input_state_ret: 0x08017b8c,
            copy_input_data_entry: 0x08017b8e,
            copy_input_data_ret: 0x08017c56,
            round_run_unpaused_step_cmp_retval: 0x08007120,
            round_start_ret: 0x08006710,
            round_ending_ret: 0x080077da,
            round_end_entry: 0x08006e1e,
            round_phase_jump_table_ret: 0x08007434,
            battle_is_p2_tst: 0x08048204,
            link_is_p2_ret: 0x08048222,
            comm_menu_init_ret: 0,
            comm_menu_init_battle_entry: 0,
            handle_sio_entry: 0x080482f8,
            in_battle_call_handle_link_cable_input: 0x08006b16,
            comm_menu_end_battle_entry: 0,
            opponent_name: 0,
        }),
{
    Offsets {
        ewram: ewram_offsets_us(),
        rom: ROMOffsets {
            start_screen_jump_table_entry: 0x0802d786,
            start_screen_sram_unmask_ret: 0x080253ca,
            game_load_ret: 0x08004996,
            main_read_joyflags: 0x080003c6,
            get_copy_data_input_state_ret: 0x08017b8c,
            copy_input_data_entry: 0x08017b8e,
            copy_input_data_ret: 0x08017c56,
            round_run_unpaused_step_cmp_retval: 0x08007120,
            round_start_ret: 0x08006710,
            round_ending_ret: 0x080077da,
            round_end_entry: 0x08006e1e,
            round_phase_jump_table_ret: 0x08007434,
            battle_is_p2_tst: 0x08048204,
            link_is_p2_ret: 0x08048222,
            comm_menu_init_ret: 0,
            comm_menu_init_battle_entry: 0,
            handle_sio_entry: 0x080482f8,
            in_battle_call_handle_link_cable_input: 0x08006b16,
            comm_menu_end_battle_entry: 0,
            opponent_name: 0,
        },
    }
}

} // verus!
