pub mod ant_goal_system;
pub mod ant_lifetime_reset_system;
pub mod ant_rebirth_system;
pub mod follow_pheromone_system;
